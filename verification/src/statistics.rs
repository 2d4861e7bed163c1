//! Execution statistics of a simulated HPU board.
use vstd::prelude::*;
use crate::multi_hpu::HpuEvents;

verus! {

/// Tracks the retired operations of a board and the activity of its bootstrapping unit.
#[derive(Debug)]
pub struct Statistics<D> {
    /// The retired device operations, in retirement order.
    pub dops: Vec<D>,
    /// Number of batches started on timeout.
    pub timeouts: u16,
    /// Total cycles the bootstrapping unit spent processing batches.
    pub pbs_busy: u64,
    /// Number of batches launched.
    pub pbs_batches: usize,
    /// Total number of bootstraps processed across all batches.
    pub pbs_slots_filled: usize,
    /// The cycle at which the batch in flight was launched.
    pub pbs_launched_at: Option<u64>,
}

impl<D> Statistics<D> {
    /// The cycle at which the batch in flight was launched, if one is.
    pub open spec fn launched_at(&self) -> Option<u64> {
        self.pbs_launched_at
    }

    /// Empty statistics: nothing retired, launched or timed out, no batch in flight.
    pub fn new() -> (r: Self)
        ensures
            r.dops@ == Seq::<D>::empty(),
            r.timeouts == 0,
            r.pbs_busy == 0,
            r.pbs_batches == 0,
            r.pbs_slots_filled == 0,
            r.launched_at() is None,
    {
        Statistics {
            dops: Vec::new(),
            timeouts: 0,
            pbs_busy: 0,
            pbs_batches: 0,
            pbs_slots_filled: 0,
            pbs_launched_at: None,
        }
    }

    /// Whether the statistics can take `event` at cycle `at`: the counters stay within their
    /// bounds, and a landing batch was launched, no later than `at`.
    pub open spec fn accepts<E>(&self, at: u64, event: HpuEvents<D, E>) -> bool {
        match event {
            HpuEvents::NotifyStartOnTimeout => self.timeouts < u16::MAX,
            HpuEvents::PePbsLaunchProcessing(batch_size) => {
                &&& self.pbs_batches < usize::MAX
                &&& self.pbs_slots_filled + batch_size <= usize::MAX
            },
            HpuEvents::PePbsLandProcessing => match self.launched_at() {
                Some(launched) => launched <= at && self.pbs_busy + (at - launched) <= u64::MAX,
                None => false,
            },
            _ => true,
        }
    }

    /// `next` records `event`, triggered at cycle `at`, on top of `self`: a retired operation is
    /// kept, a timeout counted, a launch counted with its batch size and remembered, and a
    /// landing adds the cycles since the launch to the busy time and clears the launch. Other
    /// events change nothing.
    pub open spec fn handled<E>(&self, at: u64, event: HpuEvents<D, E>, next: &Self) -> bool {
        &&& next.dops@ == (match event {
            HpuEvents::IscRetireDOp(d) => self.dops@.push(d),
            _ => self.dops@,
        })
        &&& next.timeouts == self.timeouts + (if event is NotifyStartOnTimeout { 1int } else { 0int })
        &&& next.pbs_batches == self.pbs_batches + (if event is PePbsLaunchProcessing { 1int } else { 0int })
        &&& next.pbs_slots_filled == self.pbs_slots_filled + (match event {
            HpuEvents::PePbsLaunchProcessing(batch_size) => batch_size as int,
            _ => 0int,
        })
        &&& next.pbs_busy == self.pbs_busy + (match (event, self.launched_at()) {
            (HpuEvents::PePbsLandProcessing, Some(launched)) => at - launched,
            _ => 0int,
        })
        &&& next.launched_at() == (match event {
            HpuEvents::PePbsLaunchProcessing(_) => Some(at),
            HpuEvents::PePbsLandProcessing => None,
            _ => self.launched_at(),
        })
    }

    /// Records `event`, triggered at cycle `at`: a retired operation is kept, a timeout counted,
    /// a launch counted with its batch size and remembered, and a landing adds the cycles since
    /// the launch to the busy time and clears the launch. Other events change nothing.
    pub fn handle<E>(&mut self, at: u64, event: HpuEvents<D, E>)
        requires
            old(self).accepts(at, event),
        ensures
            old(self).handled(at, event, &*final(self)),
    {
        match event {
            HpuEvents::IscRetireDOp(dop) => {
                self.dops.push(dop);
            },
            HpuEvents::NotifyStartOnTimeout => {
                self.timeouts = self.timeouts + 1;
            },
            HpuEvents::PePbsLaunchProcessing(batch_size) => {
                self.pbs_batches = self.pbs_batches + 1;
                self.pbs_slots_filled = self.pbs_slots_filled + batch_size;
                self.pbs_launched_at = Some(at);
            },
            HpuEvents::PePbsLandProcessing => {
                let launched_at = self.pbs_launched_at.take().unwrap();
                self.pbs_busy = self.pbs_busy + (at - launched_at);
            },
            _ => {},
        }
    }
}

/// A batch launched at `t0` and landed at `t1` with no batch in flight before counts one batch
/// of its size and adds `t1 - t0` cycles to the busy time; retired operations and timeouts are
/// untouched, and no batch is in flight afterwards. This holds of any two calls of
/// [`Statistics::handle`] that take the launch, then the landing: each leaves its states related
/// by [`Statistics::handled`].
pub proof fn lemma_batch_accounting<D, E>(
    s0: &Statistics<D>,
    s1: &Statistics<D>,
    s2: &Statistics<D>,
    t0: u64,
    t1: u64,
    size: usize,
)
    requires
        s0.launched_at() is None,
        s0.handled(t0, HpuEvents::<D, E>::PePbsLaunchProcessing(size), s1),
        s1.handled(t1, HpuEvents::<D, E>::PePbsLandProcessing, s2),
    ensures
        s2.pbs_batches == s0.pbs_batches + 1,
        s2.pbs_slots_filled == s0.pbs_slots_filled + size,
        s2.pbs_busy == s0.pbs_busy + (t1 - t0),
        s2.timeouts == s0.timeouts,
        s2.dops@ == s0.dops@,
        s2.launched_at() is None,
{
}

} // verus!
