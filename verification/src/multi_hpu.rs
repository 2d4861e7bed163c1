//! Event routing of a multi-board HPU system.
//!
//! [`MultiHpu`] is the router between the boards of a system: `Events::Hpu(id, e)` delivers the
//! board event `e` to board `id`, while `Events::PushDOps` and `Events::ProcessOver` mark the
//! system-wide start and completion. Two board events are intercepted instead of delivered, since
//! a lone board has no way to reach its peers: a transfer-out-ready notice is re-addressed to its
//! destination board as a transfer-in notification, delayed by the notification latency; and a
//! starvation notice records that its board has starved, `Events::ProcessOver` being emitted
//! once every board has starved, however many notices a board sends. The router decides; the simulator that owns the boards performs what it
//! decides.
use vstd::prelude::*;
use crate::locality::{HpuId, TransferId};

verus! {

/// Number of boards of a system configured by default.
pub const DEFAULT_N_HPUS: u8 = 4;

/// Configuration for a multi-HPU system: a per-board config replicated across a fixed number of
/// boards.
#[derive(Debug, Clone, PartialEq, Eq)]
pub struct MultiHpuConfig<H> {
    /// Configuration shared by every board in the system.
    pub hpu_config: H,
    /// Number of HPU boards in the system.
    pub n_hpus: u8,
}

impl<H> MultiHpuConfig<H> {
    /// A system of the default number of boards, each configured by `hpu_config`.
    pub fn with_default_count(hpu_config: H) -> (r: Self)
        ensures
            r.hpu_config == hpu_config,
            r.n_hpus == DEFAULT_N_HPUS,
    {
        MultiHpuConfig { hpu_config, n_hpus: DEFAULT_N_HPUS }
    }
}

/// Board-level simulation events, as far as the system router and the statistics collector read
/// them; `D` is a device operation, and `Other` carries any other board event through untouched.
#[derive(Debug, Clone, PartialEq, Eq)]
pub enum HpuEvents<D, E> {
    /// Hands a stream of device operations to the board's microcontroller.
    UCorePushDOps(Vec<D>),
    /// The board is ready to send a transfer: the destination board, then the transfer.
    UCoreTransferOutReady(HpuId, TransferId),
    /// The board learns that the given transfer has been sent to it.
    UCoreTransferInNotified(TransferId),
    /// The board has no more work.
    UCoreStarved,
    /// A device operation retired.
    IscRetireDOp(D),
    /// A batch was started because it waited too long to fill up.
    NotifyStartOnTimeout,
    /// The bootstrapping unit launched a batch of the given size.
    PePbsLaunchProcessing(usize),
    /// The bootstrapping unit finished its batch.
    PePbsLandProcessing,
    /// Any other board event.
    Other(E),
}

/// Simulation events of a multi-HPU system.
///
/// Board-level events travel wrapped in `Hpu`, tagged with the board they concern, whereas
/// `PushDOps` and `ProcessOver` are system-wide and belong to no single board.
#[derive(Debug, Clone, PartialEq, Eq)]
pub enum Events<D, E> {
    /// Board-level event concerning the identified HPU.
    Hpu(HpuId, HpuEvents<D, E>),
    /// Injects one device-operation stream per HPU, in board order, starting the run.
    PushDOps(Vec<Vec<D>>),
    /// Every HPU has starved: the simulation reached completion.
    ProcessOver,
}

/// What the router asks the simulator to do.
#[derive(Debug, Clone, PartialEq, Eq)]
pub enum Routing<D, E> {
    /// Dispatch the event after the given number of cycles.
    DispatchAfter(u64, Events<D, E>),
    /// Dispatch the event now.
    DispatchNow(Events<D, E>),
    /// Hand the event to the identified board; what the board dispatches in turn travels wrapped
    /// in `Events::Hpu` with that board's identifier.
    Deliver(HpuId, HpuEvents<D, E>),
}

/// Router of a system of HPU boards.
#[derive(Debug)]
pub struct MultiHpu {
    /// For each board, whether it has starved.
    starved: Vec<bool>,
    /// Cycles a transfer notification takes to reach its destination board.
    notify_delay: u64,
}

/// Whether every board of `starved` has starved.
pub open spec fn all_starved(starved: Seq<bool>) -> bool {
    forall|b: int| 0 <= b < starved.len() ==> #[trigger] starved[b]
}

impl MultiHpu {
    /// For each board, whether it has starved so far.
    pub closed spec fn starved(&self) -> Seq<bool> {
        self.starved@
    }

    /// Number of boards.
    pub open spec fn boards(&self) -> nat {
        self.starved().len()
    }

    /// Cycles a transfer notification takes to reach its destination board.
    pub closed spec fn delay(&self) -> u64 {
        self.notify_delay
    }

    /// Creates the router of a system of `config.n_hpus` boards, the `i`-th identified by
    /// `HpuId(i)`, none of which has starved; transfer notifications take `notify_delay` cycles.
    pub fn new<H>(config: &MultiHpuConfig<H>, notify_delay: u64) -> (r: MultiHpu)
        ensures
            r.boards() == config.n_hpus,
            r.starved() == Seq::new(config.n_hpus as nat, |b: int| false),
            r.delay() == notify_delay,
    {
        let mut starved: Vec<bool> = Vec::new();
        let mut b: u8 = 0;
        while b < config.n_hpus
            invariant
                b <= config.n_hpus,
                starved@ == Seq::new(b as nat, |i: int| false),
            decreases config.n_hpus - b,
        {
            starved.push(false);
            b = b + 1;
            assert(starved@ =~= Seq::new(b as nat, |i: int| false));
        }
        MultiHpu { starved, notify_delay }
    }

    /// Whether the router can take `event`: a board event other than the two intercepted ones
    /// must address an existing board, and a stream push must bring one stream per board.
    pub open spec fn accepts<D, E>(&self, event: Events<D, E>) -> bool {
        match event {
            Events::Hpu(_, HpuEvents::UCoreTransferOutReady(_, _)) => true,
            Events::Hpu(_, HpuEvents::UCoreStarved) => true,
            Events::Hpu(id, _) => id.0 < self.boards(),
            Events::PushDOps(streams) => streams@.len() == self.boards(),
            Events::ProcessOver => true,
        }
    }

    /// The stream-push requests that hand stream `i` of `streams` to board `i`.
    pub open spec fn push_requests<D, E>(streams: Seq<Vec<D>>) -> Seq<Routing<D, E>> {
        Seq::new(
            streams.len(),
            |i: int| Routing::DispatchNow(Events::Hpu(HpuId(i as u8), HpuEvents::UCorePushDOps(streams[i]))),
        )
    }

    /// The requests the router makes on `event`, and which boards have starved after it.
    pub open spec fn spec_handle<D, E>(&self, event: Events<D, E>) -> (Seq<bool>, Seq<Routing<D, E>>) {
        route(self.starved(), self.delay(), event)
    }

    /// Routes `event`: returns what the simulator has to do, in order, and records the boards
    /// that have starved.
    pub fn handle<D, E>(&mut self, event: Events<D, E>) -> (r: Vec<Routing<D, E>>)
        requires
            old(self).accepts(event),
        ensures
            final(self).delay() == old(self).delay(),
            final(self).starved() == old(self).spec_handle(event).0,
            r@ == old(self).spec_handle(event).1,
    {
        let mut out: Vec<Routing<D, E>> = Vec::new();
        match event {
            Events::Hpu(_, HpuEvents::UCoreTransferOutReady(hid, tid)) => {
                out.push(Routing::DispatchAfter(
                    self.notify_delay,
                    Events::Hpu(hid, HpuEvents::UCoreTransferInNotified(tid)),
                ));
            },
            Events::Hpu(id, HpuEvents::UCoreStarved) => {
                let b = id.0 as usize;
                if b < self.starved.len() && !self.starved[b] {
                    self.starved.set(b, true);
                    let mut all = true;
                    let mut k: usize = 0;
                    while k < self.starved.len()
                        invariant
                            k <= self.starved@.len(),
                            all == (forall|j: int| 0 <= j < k ==> #[trigger] self.starved@[j]),
                        decreases self.starved@.len() - k,
                    {
                        if !self.starved[k] {
                            all = false;
                        }
                        k = k + 1;
                    }
                    if all {
                        out.push(Routing::DispatchNow(Events::ProcessOver));
                    }
                }
            },
            Events::Hpu(id, e) => {
                out.push(Routing::Deliver(id, e));
            },
            Events::PushDOps(streams) => {
                let ghost all = streams@;
                let mut rest = streams;
                let n = rest.len();
                let mut i: usize = 0;
                while i < n
                    invariant
                        n == all.len(),
                        i <= n,
                        rest@ == all.skip(i as int),
                        out@ == Self::push_requests::<D, E>(all).take(i as int),
                    decreases n - i,
                {
                    let stream = rest.remove(0);
                    out.push(Routing::DispatchNow(Events::Hpu(HpuId(i as u8), HpuEvents::UCorePushDOps(stream))));
                    proof {
                        assert(stream == all[i as int]);
                        assert(rest@ =~= all.skip(i + 1));
                        assert(out@ =~= Self::push_requests::<D, E>(all).take(i + 1));
                    }
                    i = i + 1;
                }
                assert(out@ =~= Self::push_requests::<D, E>(all));
            },
            Events::ProcessOver => {},
        }
        out
    }
}

/// The requests a router whose boards have starved as `starved` tells makes on `event` when
/// transfer notifications take `delay` cycles, and which boards have starved after it. A
/// starvation notice from a board that had not starved yet records it, and completes the run
/// when it was the last board to starve; a repeated notice, or one naming no board, changes
/// nothing.
pub open spec fn route<D, E>(starved: Seq<bool>, delay: u64, event: Events<D, E>) -> (Seq<bool>, Seq<Routing<D, E>>) {
    match event {
        Events::Hpu(_, HpuEvents::UCoreTransferOutReady(hid, tid)) => (
            starved,
            seq![Routing::DispatchAfter(delay, Events::Hpu(hid, HpuEvents::UCoreTransferInNotified(tid)))],
        ),
        Events::Hpu(id, HpuEvents::UCoreStarved) => {
            if id.0 < starved.len() && !starved[id.0 as int] {
                let next = starved.update(id.0 as int, true);
                (next, if all_starved(next) { seq![Routing::DispatchNow(Events::ProcessOver)] } else { Seq::empty() })
            } else {
                (starved, Seq::empty())
            }
        },
        Events::Hpu(id, e) => (starved, seq![Routing::Deliver(id, e)]),
        Events::PushDOps(streams) => (starved, MultiHpu::push_requests(streams@)),
        Events::ProcessOver => (starved, Seq::empty()),
    }
}

/// Which boards have starved after, and the requests made on, `events` handled in order.
pub open spec fn run<D, E>(starved: Seq<bool>, delay: u64, events: Seq<Events<D, E>>) -> (Seq<bool>, Seq<Routing<D, E>>)
    decreases events.len(),
{
    if events.len() == 0 {
        (starved, Seq::empty())
    } else {
        let first = route(starved, delay, events[0]);
        let rest = run(first.0, delay, events.skip(1));
        (rest.0, first.1 + rest.1)
    }
}

/// Whether `r` asks for the end of the simulation.
pub open spec fn is_process_over<D, E>(r: Routing<D, E>) -> bool {
    r matches Routing::DispatchNow(Events::ProcessOver)
}

/// The number of requests in `rs` that ask for the end of the simulation.
pub open spec fn count_process_over<D, E>(rs: Seq<Routing<D, E>>) -> nat
    decreases rs.len(),
{
    if rs.len() == 0 {
        0
    } else {
        (if is_process_over(rs[0]) { 1nat } else { 0nat }) + count_process_over(rs.skip(1))
    }
}

proof fn lemma_count_concat<D, E>(a: Seq<Routing<D, E>>, b: Seq<Routing<D, E>>)
    ensures
        count_process_over(a + b) == count_process_over(a) + count_process_over(b),
    decreases a.len(),
{
    if a.len() == 0 {
        assert(a + b =~= b);
    } else {
        assert((a + b).skip(1) =~= a.skip(1) + b);
        lemma_count_concat(a.skip(1), b);
    }
}

proof fn lemma_count_none<D, E>(a: Seq<Routing<D, E>>)
    requires
        forall|i: int| 0 <= i < a.len() ==> !is_process_over(#[trigger] a[i]),
    ensures
        count_process_over(a) == 0,
    decreases a.len(),
{
    if a.len() > 0 {
        assert forall|i: int| 0 <= i < a.skip(1).len() implies !is_process_over(#[trigger] a.skip(1)[i]) by {
            assert(a.skip(1)[i] == a[i + 1]);
        }
        lemma_count_none(a.skip(1));
    }
}

/// A board that has starved stays starved, and the number of boards never changes.
proof fn lemma_run_grows<D, E>(starved: Seq<bool>, delay: u64, events: Seq<Events<D, E>>)
    ensures
        run(starved, delay, events).0.len() == starved.len(),
        forall|b: int| 0 <= b < starved.len() && starved[b] ==> #[trigger] run(starved, delay, events).0[b],
    decreases events.len(),
{
    if events.len() > 0 {
        let first = route(starved, delay, events[0]);
        lemma_run_grows(first.0, delay, events.skip(1));
    }
}

proof fn lemma_route_count<D, E>(starved: Seq<bool>, delay: u64, event: Events<D, E>)
    ensures
        route(starved, delay, event).0.len() == starved.len(),
        forall|b: int| 0 <= b < starved.len() && starved[b] ==> #[trigger] route(starved, delay, event).0[b],
        count_process_over(route(starved, delay, event).1)
            == (if !all_starved(starved) && all_starved(route(starved, delay, event).0) { 1nat } else { 0nat }),
{
    let next = route(starved, delay, event).0;
    let out = route(starved, delay, event).1;
    if let Events::Hpu(id, HpuEvents::UCoreStarved) = event {
        if id.0 < starved.len() && !starved[id.0 as int] {
            assert(!all_starved(starved));
            if all_starved(next) {
                assert(out.skip(1) =~= Seq::<Routing<D, E>>::empty());
                assert(count_process_over(out.skip(1)) == 0);
                assert(is_process_over(out[0]));
                return;
            }
        }
    }
    assert forall|i: int| 0 <= i < out.len() implies !is_process_over(#[trigger] out[i]) by {}
    lemma_count_none(out);
    if all_starved(next) && !(event matches Events::Hpu(_, HpuEvents::UCoreStarved)) {
        assert(next == starved);
    }
}

/// A router reports the end of the simulation exactly once, when the last of its boards starves:
/// over any run, `ProcessOver` is requested once if some board had not starved before the run
/// and every board has starved after it, and never otherwise; repeated notices from one board
/// count once.
pub proof fn lemma_process_over_once<D, E>(starved: Seq<bool>, delay: u64, events: Seq<Events<D, E>>)
    ensures
        count_process_over(run(starved, delay, events).1)
            == (if !all_starved(starved) && all_starved(run(starved, delay, events).0) { 1nat } else { 0nat }),
    decreases events.len(),
{
    if events.len() > 0 {
        let first = route(starved, delay, events[0]);
        let rest = run(first.0, delay, events.skip(1));
        lemma_route_count(starved, delay, events[0]);
        lemma_process_over_once(first.0, delay, events.skip(1));
        lemma_run_grows(first.0, delay, events.skip(1));
        lemma_count_concat(first.1, rest.1);
        if all_starved(first.0) {
            assert(all_starved(rest.0)) by {
                assert forall|b: int| 0 <= b < rest.0.len() implies #[trigger] rest.0[b] by {
                    assert(first.0[b]);
                }
            }
        }
        if all_starved(starved) {
            assert(all_starved(first.0)) by {
                assert forall|b: int| 0 <= b < first.0.len() implies #[trigger] first.0[b] by {
                    assert(starved[b]);
                }
            }
        }
    }
}

} // verus!
