//! Push-based evaluation of an IR: operations are evaluated as the caller hands them over.
use vstd::prelude::*;
use crate::annotation::{AnnIR, AnnIRView};
use crate::idmap::{OpMap, ValMap};
use crate::ids::{AsOpId, AsValId, OpId, ValId};
use crate::ir::{Dialect, DialectInstructionSet, IR, TypeOf};

verus! {

/// Instruction sets whose instructions can be evaluated on values of type `V`.
///
/// `eval` reports a failure of the instruction with `Err` carrying a message; the evaluator
/// records it as a panicked operation.
pub trait Evaluable<V>: Sized {
    /// Context threaded through every evaluation.
    type Context;

    /// Whether one evaluation of the instruction on the argument values `args` may turn the
    /// context `before` into `after` and give `result`: the returned values, or the failure
    /// message. An instruction set that does not refine it promises nothing of its evaluations.
    open spec fn evaluates(&self, before: Self::Context, args: Seq<V>, after: Self::Context, result: Result<Seq<V>, String>) -> bool {
        true
    }

    /// Evaluates the instruction on the given arguments.
    fn eval(&self, context: &mut Self::Context, args: Vec<&V>) -> (r: Result<Vec<V>, String>)
        ensures
            self.evaluates(*old(context), derefs(args@), *final(context), result_view(r)),
    ;
}

/// The values behind a sequence of references.
pub open spec fn derefs<V>(args: Seq<&V>) -> Seq<V> {
    args.map_values(|a: &V| *a)
}

/// What an evaluation returned, as values or a message.
pub open spec fn result_view<V>(r: Result<Vec<V>, String>) -> Result<Seq<V>, String> {
    match r {
        Ok(values) => Ok(values@),
        Err(message) => Err(message),
    }
}

/// Type systems whose types classify values of type `V`.
pub trait EvaluatesTo<V>: Sized {
    /// Whether `value` inhabits the type.
    spec fn spec_inhabited_by(&self, value: V) -> bool;

    /// Returns whether `value` inhabits the type.
    fn is_inhabited_by(&self, value: &V) -> (r: bool)
        ensures
            r == self.spec_inhabited_by(*value),
    ;
}

/// Evaluation state of an operation.
pub enum OpState {
    /// Not pushed yet.
    Pending,
    /// Evaluated successfully.
    Evaluated,
    /// Its evaluation failed with this message.
    Panicked(String),
    /// Not evaluated, because an upstream operation failed.
    PoisonedBy(OpId),
}

impl OpState {
    /// Returns whether the operation is still pending.
    pub fn is_pending(&self) -> (r: bool)
        ensures
            r == (*self is Pending),
    {
        match self {
            OpState::Pending => true,
            _ => false,
        }
    }

    /// Returns whether the operation's evaluation failed.
    pub fn is_panic(&self) -> (r: bool)
        ensures
            r == (*self is Panicked),
    {
        match self {
            OpState::Panicked(_) => true,
            _ => false,
        }
    }
}

/// Evaluation state of a value.
pub enum ValState<V> {
    /// Its operation has not been pushed yet.
    Pending,
    /// The value it evaluated to.
    Evaluated(V),
    /// Not computed, because this operation failed upstream.
    PoisonedBy(OpId),
}

impl<V> ValState<V> {
    /// Returns whether the value has been evaluated.
    pub fn is_evaluated(&self) -> (r: bool)
        ensures
            r == (*self is Evaluated),
    {
        match self {
            ValState::Evaluated(_) => true,
            _ => false,
        }
    }
}

/// Why a value cannot be read from an evaluator.
#[derive(Debug, Clone, Copy, PartialEq, Eq)]
pub enum EvalError {
    /// The evaluator holds no state for the value.
    UnknownValId,
    /// The operation producing the value has not been pushed yet.
    PendingValId,
    /// The operation producing the value, or one upstream of it, failed.
    PoisonedValId(OpId),
}

/// Why an operation could not be pushed: an evaluation broke the contract of its signature.
#[derive(Debug, Clone, Copy, PartialEq, Eq)]
pub enum PushFailure {
    /// The argument at this position does not inhabit the declared type.
    ArgumentTypeMismatch(usize),
    /// The evaluation returned a number of results different from the signature's.
    ReturnArityMismatch,
    /// The result at this position does not inhabit the declared type.
    ReturnTypeMismatch(usize),
}

/// The position of the first of `values`, from position `j` on, that does not inhabit the type
/// at the same position of `types`.
pub open spec fn first_ill_typed<T: EvaluatesTo<V>, V>(types: Seq<T>, values: Seq<V>, j: int) -> Option<int>
    decreases values.len() - j,
{
    if j < 0 || j >= values.len() {
        None
    } else if !types[j].spec_inhabited_by(values[j]) {
        Some(j)
    } else {
        first_ill_typed(types, values, j + 1)
    }
}

/// Values of the right number that each inhabit their declared type have no ill-typed one.
proof fn lemma_well_typed<T: EvaluatesTo<V>, V>(types: Seq<T>, values: Seq<V>, j: int)
    requires
        0 <= j,
        values.len() == types.len(),
        forall|i: int| 0 <= i < types.len() ==> #[trigger] types[i].spec_inhabited_by(values[i]),
    ensures
        first_ill_typed(types, values, j) is None,
    decreases values.len() - j,
{
    if j < values.len() {
        assert(types[j].spec_inhabited_by(values[j]));
        lemma_well_typed(types, values, j + 1);
    }
}

/// The first upstream failure among `args`, in argument order.
pub open spec fn first_poison<V>(states: ValMap<ValState<V>>, args: Seq<ValId>) -> Option<OpId>
    decreases args.len(),
{
    if args.len() == 0 {
        None
    } else {
        let prev = first_poison(states, args.drop_last());
        if prev is Some {
            prev
        } else {
            match states.spec_get(args.last()) {
                Some(ValState::PoisonedBy(p)) => Some(p),
                _ => None,
            }
        }
    }
}

/// `first_poison` only depends on the states of the listed values.
pub proof fn lemma_first_poison_congruent<V>(m1: ValMap<ValState<V>>, m2: ValMap<ValState<V>>, args: Seq<ValId>)
    requires
        forall|k: int| 0 <= k < args.len() ==> #[trigger] m1.spec_get(args[k]) == m2.spec_get(args[k]),
    ensures
        first_poison(m1, args) == first_poison(m2, args),
    decreases args.len(),
{
    if args.len() > 0 {
        let pre = args.drop_last();
        assert forall|k: int| 0 <= k < pre.len() implies #[trigger] m1.spec_get(pre[k]) == m2.spec_get(pre[k]) by {
            assert(pre[k] == args[k]);
        }
        lemma_first_poison_congruent(m1, m2, pre);
        assert(m1.spec_get(args[args.len() - 1]) == m2.spec_get(args[args.len() - 1]));
    }
}

/// Extending a prefix by one value extends `first_poison` by that value's state.
pub proof fn lemma_first_poison_step<V>(m: ValMap<ValState<V>>, args: Seq<ValId>, k: int)
    requires
        0 <= k < args.len(),
    ensures
        first_poison(m, args.take(k + 1)) == if first_poison(m, args.take(k)) is Some {
            first_poison(m, args.take(k))
        } else {
            match m.spec_get(args[k]) {
                Some(ValState::PoisonedBy(p)) => Some(p),
                _ => None,
            }
        },
{
    assert(args.take(k + 1).drop_last() =~= args.take(k));
    assert(args.take(k + 1).last() == args[k]);
}

/// A poison found by `first_poison` is carried by one of the values.
pub proof fn lemma_first_poison_some<V>(m: ValMap<ValState<V>>, args: Seq<ValId>)
    ensures
        first_poison(m, args) matches Some(p) ==> exists|k: int|
            0 <= k < args.len() && #[trigger] m.spec_get(args[k]) == Some(ValState::<V>::PoisonedBy(p)),
    decreases args.len(),
{
    if args.len() > 0 {
        let pre = args.drop_last();
        lemma_first_poison_some(m, pre);
        if let Some(p) = first_poison(m, pre) {
            let k = choose|k: int| 0 <= k < pre.len() && #[trigger] m.spec_get(pre[k]) == Some(ValState::<V>::PoisonedBy(p));
            assert(pre[k] == args[k]);
        } else {
            assert(args.last() == args[args.len() - 1]);
        }
    }
}

/// When `first_poison` finds none, no value is poisoned.
pub proof fn lemma_first_poison_none_inv<V>(m: ValMap<ValState<V>>, args: Seq<ValId>)
    requires
        first_poison(m, args) is None,
    ensures
        forall|k: int| 0 <= k < args.len() ==> !(#[trigger] m.spec_get(args[k]) matches Some(ValState::PoisonedBy(_))),
    decreases args.len(),
{
    if args.len() > 0 {
        let pre = args.drop_last();
        lemma_first_poison_none_inv(m, pre);
        assert forall|k: int| 0 <= k < args.len() implies !(#[trigger] m.spec_get(args[k]) matches Some(ValState::PoisonedBy(_))) by {
            if k < args.len() - 1 {
                assert(pre[k] == args[k]);
            }
        }
    }
}

/// When no value is poisoned, `first_poison` finds none.
pub proof fn lemma_first_poison_none<V>(m: ValMap<ValState<V>>, args: Seq<ValId>)
    requires
        forall|k: int| 0 <= k < args.len() ==> !(#[trigger] m.spec_get(args[k]) matches Some(ValState::PoisonedBy(_))),
    ensures
        first_poison(m, args) is None,
    decreases args.len(),
{
    if args.len() > 0 {
        let pre = args.drop_last();
        assert forall|k: int| 0 <= k < pre.len() implies !(#[trigger] m.spec_get(pre[k]) matches Some(ValState::PoisonedBy(_))) by {
            assert(pre[k] == args[k]);
        }
        lemma_first_poison_none(m, pre);
        assert(!(m.spec_get(args[args.len() - 1]) matches Some(ValState::PoisonedBy(_))));
    }
}

/// Push-based driver evaluating operations as the caller advances them.
pub struct EagerEvaluator<'ir, D: Dialect, V> {
    valmap: ValMap<ValState<V>>,
    opmap: OpMap<OpState>,
    ir: &'ir IR<D>,
}

impl<'ir, D: Dialect, V> EagerEvaluator<'ir, D, V> where
    D::InstructionSet: Evaluable<V>,
    TypeOf<D>: EvaluatesTo<V>,
 {
    /// The evaluated IR.
    pub closed spec fn eval_ir(&self) -> IR<D> {
        *self.ir
    }

    /// The value states.
    pub closed spec fn val_states(&self) -> ValMap<ValState<V>> {
        self.valmap
    }

    /// The operation states.
    pub closed spec fn op_states(&self) -> OpMap<OpState> {
        self.opmap
    }

    /// State of `op`.
    pub open spec fn op_state(&self, op: OpId) -> OpState {
        self.op_states().spec_get(op)->0
    }

    /// State of `v`.
    pub open spec fn val_state(&self, v: ValId) -> ValState<V> {
        self.val_states().spec_get(v)->0
    }

    /// The state of a pushed operation and of its results follow from its arguments: results
    /// poisoned by the first failed argument, or evaluated to values of the declared types, or
    /// poisoned by the operation itself when its evaluation failed.
    pub open spec fn settled(&self, op: OpId) -> bool {
        let ir = self.eval_ir();
        let rets = ir.rets(op);
        &&& forall|k: int| 0 <= k < ir.args(op).len() ==> !(self.val_state(#[trigger] ir.args(op)[k]) is Pending)
        &&& match first_poison(self.val_states(), ir.args(op)) {
            Some(p) => {
                &&& self.op_state(op) == OpState::PoisonedBy(p)
                &&& forall|j: int| 0 <= j < rets.len() ==> #[trigger] self.val_state(rets[j]) == ValState::<V>::PoisonedBy(p)
            },
            None => {
                ||| {
                    &&& self.op_state(op) is Evaluated
                    &&& forall|j: int| 0 <= j < rets.len() ==> {
                        &&& #[trigger] self.val_state(rets[j]) is Evaluated
                        &&& ir.instr(op).spec_return_types()[j].spec_inhabited_by(self.val_state(rets[j])->Evaluated_0)
                    }
                }
                ||| {
                    &&& self.op_state(op) is Panicked
                    &&& forall|j: int| 0 <= j < rets.len() ==> #[trigger] self.val_state(rets[j]) == ValState::<V>::PoisonedBy(op)
                }
            },
        }
    }

    /// Evaluator invariant: one state per operation and value, pending operations have pending
    /// results, pushed operations are settled, and every poison originates at a failed operation.
    pub open spec fn wf(&self) -> bool {
        let ir = self.eval_ir();
        &&& ir.wf()
        &&& self.op_states().spec_len() == ir.spec_n_ops()
        &&& self.val_states().spec_len() == ir.spec_n_vals()
        &&& self.op_states().spec_is_filled()
        &&& self.val_states().spec_is_filled()
        &&& forall|i: int| #![trigger self.op_state(OpId(i as u32))] 0 <= i < ir.spec_n_ops() ==> {
            let op = OpId(i as u32);
            if self.op_state(op) is Pending {
                forall|j: int| 0 <= j < ir.rets(op).len() ==> #[trigger] self.val_state(ir.rets(op)[j]) is Pending
            } else {
                self.settled(op)
            }
        }
        &&& forall|v: int| #![trigger self.val_state(ValId(v as u32))] 0 <= v < ir.spec_n_vals() ==> {
            self.val_state(ValId(v as u32)) matches ValState::PoisonedBy(p) ==> {
                &&& ir.has_op(p)
                &&& self.op_state(p) is Panicked
            }
        }
    }

    /// The operations before position `k` have been pushed and the others have not.
    pub open spec fn pushed_up_to(&self, k: int) -> bool {
        &&& 0 <= k <= self.eval_ir().spec_n_ops()
        &&& forall|i: int| 0 <= i < k ==> !(#[trigger] self.op_state(OpId(i as u32)) is Pending)
        &&& forall|i: int| k <= i < self.eval_ir().spec_n_ops() ==> #[trigger] self.op_state(OpId(i as u32)) is Pending
    }

    /// Every evaluation of `op` that the instruction set admits, and that returns values, returns
    /// as many as the signature of `op` declares, each inhabiting its declared type.
    pub open spec fn op_evaluations_fit(&self, op: OpId) -> bool {
        let types = self.eval_ir().instr(op).spec_return_types();
        forall|
            before: <D::InstructionSet as Evaluable<V>>::Context,
            args: Seq<V>,
            after: <D::InstructionSet as Evaluable<V>>::Context,
            result: Result<Seq<V>, String>,
        |
            #[trigger] self.eval_ir().instr(op).evaluates(before, args, after, result) && result is Ok ==> {
                &&& result->Ok_0.len() == types.len()
                &&& forall|j: int| 0 <= j < types.len() ==> #[trigger] types[j].spec_inhabited_by(result->Ok_0[j])
            }
    }

    /// The evaluations of every operation of the IR fit their signatures.
    pub open spec fn evaluations_fit(&self) -> bool {
        forall|i: int| 0 <= i < self.eval_ir().spec_n_ops() ==> #[trigger] self.op_evaluations_fit(OpId(i as u32))
    }

    /// An admitted evaluation of an operation whose evaluations fit its signature is recorded,
    /// whatever it gave.
    pub proof fn lemma_fit_outcome(
        &self,
        op: OpId,
        before: <D::InstructionSet as Evaluable<V>>::Context,
        args: Seq<V>,
        after: <D::InstructionSet as Evaluable<V>>::Context,
        result: Result<Seq<V>, String>,
    )
        requires
            self.op_evaluations_fit(op),
            self.eval_ir().instr(op).evaluates(before, args, after, result),
        ensures
            self.outcome(op, result) is Ok,
    {
        if let Ok(values) = result {
            let types = self.eval_ir().instr(op).spec_return_types();
            lemma_well_typed(types, values, 0);
        }
    }

    /// Every operation of the IR has been pushed.
    pub open spec fn all_pushed(&self) -> bool {
        forall|i: int| 0 <= i < self.eval_ir().spec_n_ops() ==> !(#[trigger] self.op_state(OpId(i as u32)) is Pending)
    }

    /// No operation of the IR has been pushed.
    pub open spec fn none_pushed(&self) -> bool {
        &&& forall|i: int| 0 <= i < self.eval_ir().spec_n_ops() ==> #[trigger] self.op_state(OpId(i as u32)) is Pending
        &&& forall|v: int| 0 <= v < self.eval_ir().spec_n_vals() ==> #[trigger] self.val_state(ValId(v as u32)) is Pending
    }

    /// Every value of the IR has been evaluated.
    pub open spec fn spec_is_ok(&self) -> bool {
        forall|v: int| 0 <= v < self.eval_ir().spec_n_vals() ==> #[trigger] self.val_state(ValId(v as u32)) is Evaluated
    }

    /// Creates an evaluator over an IR, with every operation and value pending.
    pub fn from_ir(ir: &'ir IR<D>) -> (r: Self)
        requires
            ir.wf(),
        ensures
            r.wf(),
            r.eval_ir() == *ir,
            r.none_pushed(),
    {
        let n_ops = ir.n_ops();
        let n_vals = ir.n_vals();
        let mut ops: Vec<Option<OpState>> = Vec::new();
        let mut k: usize = 0;
        while k < n_ops
            invariant
                k <= n_ops,
                ops@.len() == k,
                forall|i: int| 0 <= i < k ==> #[trigger] ops@[i] == Some(OpState::Pending),
            decreases n_ops - k,
        {
            ops.push(Some(OpState::Pending));
            k = k + 1;
        }
        let mut vals: Vec<Option<ValState<V>>> = Vec::new();
        let mut k: usize = 0;
        while k < n_vals
            invariant
                k <= n_vals,
                vals@.len() == k,
                forall|i: int| 0 <= i < k ==> #[trigger] vals@[i] == Some(ValState::<V>::Pending),
            decreases n_vals - k,
        {
            vals.push(Some(ValState::Pending));
            k = k + 1;
        }
        let r = EagerEvaluator { valmap: ValMap::from_slots(vals), opmap: OpMap::from_slots(ops), ir };
        proof {
            assert forall|i: int| 0 <= i < n_ops implies #[trigger] r.op_state(OpId(i as u32)) is Pending by {
                assert(r.opmap.slots()[i] == Some(OpState::Pending));
            }
            assert forall|v: int| 0 <= v < n_vals implies #[trigger] r.val_state(ValId(v as u32)) is Pending by {
                assert(r.valmap.slots()[v] == Some(ValState::<V>::Pending));
            }
            assert forall|i: int| 0 <= i < r.opmap.spec_len() implies #[trigger] r.opmap.slots()[i] is Some by {
                assert(ops@[i] == Some(OpState::Pending));
            }
            assert forall|i: int| 0 <= i < r.valmap.spec_len() implies #[trigger] r.valmap.slots()[i] is Some by {
                assert(vals@[i] == Some(ValState::<V>::Pending));
            }
            assert forall|i: int| #![trigger r.op_state(OpId(i as u32))] 0 <= i < ir.spec_n_ops() implies {
                let op = OpId(i as u32);
                if r.op_state(op) is Pending {
                    forall|j: int| 0 <= j < ir.rets(op).len() ==> #[trigger] r.val_state(ir.rets(op)[j]) is Pending
                } else {
                    r.settled(op)
                }
            } by {
                let op = OpId(i as u32);
                ir.lemma_op_wf(OpId(i as u32));
                assert forall|j: int| 0 <= j < ir.rets(op).len() implies #[trigger] r.val_state(ir.rets(op)[j]) is Pending by {
                    let v = ir.rets(op)[j];
                    assert(r.val_state(ValId(v.0 as u32)) is Pending);
                }
            }
        }
        r
    }


    /// `next` differs from `self` only in the state of `op` and of the values `op` defines.
    pub open spec fn updated_only(&self, next: &Self, op: OpId) -> bool {
        let ir = self.eval_ir();
        &&& next.eval_ir() == ir
        &&& next.op_states().spec_len() == self.op_states().spec_len()
        &&& next.val_states().spec_len() == self.val_states().spec_len()
        &&& next.op_states().spec_is_filled()
        &&& next.val_states().spec_is_filled()
        &&& forall|i: int| 0 <= i < ir.spec_n_ops() && OpId(i as u32) != op ==>
            #[trigger] next.op_state(OpId(i as u32)) == self.op_state(OpId(i as u32))
        &&& forall|v: int| 0 <= v < ir.spec_n_vals() && ir.origin(ValId(v as u32)) != op ==>
            #[trigger] next.val_state(ValId(v as u32)) == self.val_state(ValId(v as u32))
    }

    /// The values of the arguments of `op`, in signature order.
    pub open spec fn arg_values(&self, op: OpId) -> Seq<V> {
        self.eval_ir().args(op).map_values(|v: ValId| self.val_state(v)->Evaluated_0)
    }

    /// What pushing `op` answers when its evaluation gave `result`: a failed evaluation is
    /// recorded, results of the wrong number or of a wrong type break the signature, and values
    /// of the declared types are bound.
    pub open spec fn outcome(&self, op: OpId, result: Result<Seq<V>, String>) -> Result<(), PushFailure> {
        let types = self.eval_ir().instr(op).spec_return_types();
        match result {
            Err(_) => Ok(()),
            Ok(values) => {
                if values.len() != types.len() {
                    Err(PushFailure::ReturnArityMismatch)
                } else {
                    match first_ill_typed(types, values, 0) {
                        Some(j) => Err(PushFailure::ReturnTypeMismatch(j as usize)),
                        None => Ok(()),
                    }
                }
            },
        }
    }

    /// `next` records the evaluation of `op` that gave `result`: a failure marks `op` failed with
    /// its message and poisons its results by `op` itself; values are bound to the results of
    /// `op` in position order and mark it evaluated. Nothing else changes.
    pub open spec fn settled_as(&self, next: &Self, op: OpId, result: Result<Seq<V>, String>) -> bool {
        let rets = self.eval_ir().rets(op);
        &&& self.updated_only(next, op)
        &&& match result {
            Err(message) => {
                &&& next.op_state(op) == OpState::Panicked(message)
                &&& forall|j: int| 0 <= j < rets.len() ==> #[trigger] next.val_state(rets[j]) == ValState::<V>::PoisonedBy(op)
            },
            Ok(values) => {
                &&& next.op_state(op) == OpState::Evaluated
                &&& forall|j: int| 0 <= j < rets.len() ==> #[trigger] next.val_state(rets[j]) == ValState::<V>::Evaluated(values[j])
            },
        }
    }

    /// Settling one pending operation whose arguments are all pushed keeps the invariant.
    proof fn lemma_settle_preserves_wf(&self, next: &Self, op: OpId)
        requires
            self.wf(),
            self.eval_ir().has_op(op),
            self.op_state(op) is Pending,
            !(next.op_state(op) is Pending),
            forall|k: int| 0 <= k < self.eval_ir().args(op).len() ==> !(self.val_state(#[trigger] self.eval_ir().args(op)[k]) is Pending),
            self.updated_only(next, op),
            next.settled(op),
            forall|j: int| 0 <= j < self.eval_ir().rets(op).len() ==>
                (#[trigger] next.val_state(self.eval_ir().rets(op)[j]) matches ValState::PoisonedBy(p) ==> {
                    &&& self.eval_ir().has_op(p)
                    &&& next.op_state(p) is Panicked
                }),
        ensures
            next.wf(),
    {
        let ir = self.eval_ir();
        ir.lemma_op_wf(op);
        // Values defined by `op` were pending; every other value keeps its state.
        assert forall|i: int| #![trigger next.op_state(OpId(i as u32))] 0 <= i < ir.spec_n_ops() implies {
            let o = OpId(i as u32);
            if next.op_state(o) is Pending {
                forall|j: int| 0 <= j < ir.rets(o).len() ==> #[trigger] next.val_state(ir.rets(o)[j]) is Pending
            } else {
                next.settled(o)
            }
        } by {
            let o = OpId(i as u32);
            if o != op {
                assert(next.op_state(o) == self.op_state(o));
                assert(self.op_state(OpId(i as u32)) == self.op_state(o));
                ir.lemma_op_wf(OpId(i as u32));
                assert forall|j: int| 0 <= j < ir.rets(o).len() implies
                    #[trigger] next.val_state(ir.rets(o)[j]) == self.val_state(ir.rets(o)[j]) by {
                    let v = ir.rets(o)[j];
                    assert(ir.origin(v) == o);
                    assert(next.val_state(ValId(v.0 as u32)) == self.val_state(ValId(v.0 as u32)));
                }
                if !(next.op_state(o) is Pending) {
                    assert(self.settled(o));
                    assert forall|k: int| 0 <= k < ir.args(o).len() implies
                        #[trigger] next.val_states().spec_get(ir.args(o)[k]) == self.val_states().spec_get(ir.args(o)[k]) by {
                        let v = ir.args(o)[k];
                        assert(!(self.val_state(v) is Pending));
                        if ir.origin(v) == op {
                            ir.lemma_val_wf(v);
                            assert(ir.rets(op)[ir.position(v)] == v);
                            assert(self.val_state(ir.rets(op)[ir.position(v)]) is Pending);
                        } else {
                            assert(next.val_state(ValId(v.0 as u32)) == self.val_state(ValId(v.0 as u32)));
                            assert(self.val_states().spec_get(v) is Some) by {
                                assert(self.val_states().slots()[v.0 as int] is Some);
                            }
                            assert(next.val_states().spec_get(v) is Some) by {
                                assert(next.val_states().slots()[v.0 as int] is Some);
                            }
                        }
                    }
                    lemma_first_poison_congruent(next.val_states(), self.val_states(), ir.args(o));
                    assert forall|k: int| 0 <= k < ir.args(o).len() implies !(next.val_state(#[trigger] ir.args(o)[k]) is Pending) by {
                        assert(next.val_states().spec_get(ir.args(o)[k]) == self.val_states().spec_get(ir.args(o)[k]));
                    }
                }
            }
        }
        assert forall|v: int| #![trigger next.val_state(ValId(v as u32))] 0 <= v < ir.spec_n_vals() implies {
            next.val_state(ValId(v as u32)) matches ValState::PoisonedBy(p) ==> {
                &&& ir.has_op(p)
                &&& next.op_state(p) is Panicked
            }
        } by {
            let val = ValId(v as u32);
            if ir.origin(val) == op {
                ir.lemma_val_wf(ValId(v as u32));
                assert(ir.rets(op)[ir.position(val)] == val);
            } else {
                assert(next.val_state(val) == self.val_state(val));
                if let ValState::PoisonedBy(p) = self.val_state(val) {
                    assert(self.op_state(p) is Panicked);
                    assert(p != op);
                    assert(next.op_state(OpId(p.0 as u32)) == self.op_state(OpId(p.0 as u32)));
                }
            }
        }
    }

    /// Every evaluated value inhabits the type its defining instruction declares.
    pub proof fn lemma_evaluated_inhabits(&self, v: ValId)
        requires
            self.wf(),
            self.eval_ir().has_val(v),
            self.val_state(v) is Evaluated,
        ensures
            self.eval_ir().val_type(v).spec_inhabited_by(self.val_state(v)->Evaluated_0),
    {
        let ir = self.eval_ir();
        ir.lemma_val_wf(v);
        let o = ir.origin(v);
        let j = ir.position(v);
        assert(ir.rets(o)[j] == v);
        assert(self.op_state(OpId(o.0 as u32)) == self.op_state(o));
        if self.op_state(o) is Pending {
            assert(self.val_state(ir.rets(o)[j]) is Pending);
        } else {
            assert(self.settled(o));
            assert(self.val_state(ir.rets(o)[j]) == self.val_state(v));
        }
    }

    /// Every failure is traced to its source: a poisoned value names an operation of the IR whose
    /// evaluation panicked.
    pub proof fn lemma_poison_origin(&self, v: ValId)
        requires
            self.wf(),
            self.eval_ir().has_val(v),
            self.val_state(v) is PoisonedBy,
        ensures
            self.eval_ir().has_op(self.val_state(v)->PoisonedBy_0),
            self.op_state(self.val_state(v)->PoisonedBy_0) is Panicked,
    {
        assert(self.val_state(ValId(v.0 as u32)) == self.val_state(v));
    }

    /// Sets every value defined by `op` to `PoisonedBy(p)`.
    fn poison_all(&mut self, op: OpId, p: OpId)
        requires
            old(self).eval_ir().wf(),
            old(self).eval_ir().has_op(op),
            old(self).val_states().spec_len() == old(self).eval_ir().spec_n_vals(),
            old(self).val_states().spec_is_filled(),
        ensures
            final(self).eval_ir() == old(self).eval_ir(),
            final(self).op_states() == old(self).op_states(),
            final(self).val_states().spec_len() == old(self).val_states().spec_len(),
            final(self).val_states().spec_is_filled(),
            forall|v: int| 0 <= v < old(self).eval_ir().spec_n_vals() && old(self).eval_ir().origin(ValId(v as u32)) != op ==>
                #[trigger] final(self).val_state(ValId(v as u32)) == old(self).val_state(ValId(v as u32)),
            forall|j: int| 0 <= j < old(self).eval_ir().rets(op).len() ==>
                #[trigger] final(self).val_state(old(self).eval_ir().rets(op)[j]) == ValState::<V>::PoisonedBy(p),
    {
        let ghost ir = self.eval_ir();
        let rets = self.ir.get_return_valids(op);
        proof {
            ir.lemma_op_wf(op);
        }
        let mut j: usize = 0;
        while j < rets.len()
            invariant
                ir.wf(),
                ir.has_op(op),
                self.eval_ir() == ir,
                rets@ == ir.rets(op),
                self.op_states() == old(self).op_states(),
                self.val_states().spec_len() == ir.spec_n_vals(),
                self.val_states().spec_is_filled(),
                j <= rets@.len(),
                forall|v: int| 0 <= v < ir.spec_n_vals() && ir.origin(ValId(v as u32)) != op ==>
                    #[trigger] self.val_state(ValId(v as u32)) == old(self).val_state(ValId(v as u32)),
                forall|i: int| 0 <= i < j ==> #[trigger] self.val_state(rets@[i]) == ValState::<V>::PoisonedBy(p),
                forall|i: int| 0 <= i < rets@.len() ==> {
                    &&& ir.has_val(#[trigger] rets@[i])
                    &&& ir.origin(rets@[i]) == op
                    &&& ir.position(rets@[i]) == i
                },
            decreases rets@.len() - j,
        {
            let ghost prev = self.val_states();
            let ghost prev_self = *self;
            let _ = self.valmap.insert(rets[j], ValState::PoisonedBy(p));
            proof {
                assert forall|i: int| 0 <= i < self.val_states().spec_len() implies #[trigger] self.val_states().slots()[i] is Some by {
                    if i != rets@[j as int].0 {
                        assert(self.val_states().slots()[i] == prev.slots()[i]);
                    }
                }
                assert forall|v: int| 0 <= v < ir.spec_n_vals() && ir.origin(ValId(v as u32)) != op implies
                    #[trigger] self.val_state(ValId(v as u32)) == old(self).val_state(ValId(v as u32)) by {
                    assert(ValId(v as u32).0 == v);
                    assert(v != rets@[j as int].0);
                    assert(self.val_states().slots()[v] == prev.slots()[v]);
                    assert(prev_self.val_state(ValId(v as u32)) == old(self).val_state(ValId(v as u32)));
                }
                assert forall|i: int| 0 <= i < j + 1 implies #[trigger] self.val_state(rets@[i]) == ValState::<V>::PoisonedBy(p) by {
                    if i < j {
                        assert(ir.position(rets@[i]) == i);
                        assert(ir.position(rets@[j as int]) == j);
                        assert(rets@[i].0 != rets@[j as int].0);
                        assert(self.val_states().slots()[rets@[i].0 as int] == prev.slots()[rets@[i].0 as int]);
                        assert(prev_self.val_state(rets@[i]) == ValState::<V>::PoisonedBy(p));
                    }
                }
            }
            j = j + 1;
        }
    }

    /// Binds the values defined by `op` to `vals`, in position order.
    fn bind_all(&mut self, op: OpId, vals: Vec<V>)
        requires
            old(self).eval_ir().wf(),
            old(self).eval_ir().has_op(op),
            old(self).val_states().spec_len() == old(self).eval_ir().spec_n_vals(),
            old(self).val_states().spec_is_filled(),
            vals@.len() == old(self).eval_ir().rets(op).len(),
        ensures
            final(self).eval_ir() == old(self).eval_ir(),
            final(self).op_states() == old(self).op_states(),
            final(self).val_states().spec_len() == old(self).val_states().spec_len(),
            final(self).val_states().spec_is_filled(),
            forall|v: int| 0 <= v < old(self).eval_ir().spec_n_vals() && old(self).eval_ir().origin(ValId(v as u32)) != op ==>
                #[trigger] final(self).val_state(ValId(v as u32)) == old(self).val_state(ValId(v as u32)),
            forall|j: int| 0 <= j < old(self).eval_ir().rets(op).len() ==>
                #[trigger] final(self).val_state(old(self).eval_ir().rets(op)[j]) == ValState::<V>::Evaluated(vals@[j]),
    {
        let ghost ir = self.eval_ir();
        let ghost orig = vals@;
        let rets = self.ir.get_return_valids(op);
        proof {
            ir.lemma_op_wf(op);
        }
        let mut vals = vals;
        let mut j: usize = rets.len();
        while j > 0
            invariant
                ir.wf(),
                ir.has_op(op),
                self.eval_ir() == ir,
                rets@ == ir.rets(op),
                orig.len() == rets@.len(),
                self.op_states() == old(self).op_states(),
                self.val_states().spec_len() == ir.spec_n_vals(),
                self.val_states().spec_is_filled(),
                j <= rets@.len(),
                vals@ == orig.take(j as int),
                forall|v: int| 0 <= v < ir.spec_n_vals() && ir.origin(ValId(v as u32)) != op ==>
                    #[trigger] self.val_state(ValId(v as u32)) == old(self).val_state(ValId(v as u32)),
                forall|i: int| j <= i < rets@.len() ==> #[trigger] self.val_state(rets@[i]) == ValState::<V>::Evaluated(orig[i]),
                forall|i: int| 0 <= i < rets@.len() ==> {
                    &&& ir.has_val(#[trigger] rets@[i])
                    &&& ir.origin(rets@[i]) == op
                    &&& ir.position(rets@[i]) == i
                },
            decreases j,
        {
            let ghost prev = self.val_states();
            let ghost prev_self = *self;
            let v = match vals.pop() {
                Some(v) => v,
                None => {
                    proof {
                        assert(false);
                    }
                    unreached()
                },
            };
            j = j - 1;
            proof {
                assert(v == orig[j as int]);
                assert(vals@ =~= orig.take(j as int));
            }
            let _ = self.valmap.insert(rets[j], ValState::Evaluated(v));
            proof {
                assert forall|i: int| 0 <= i < self.val_states().spec_len() implies #[trigger] self.val_states().slots()[i] is Some by {
                    if i != rets@[j as int].0 {
                        assert(self.val_states().slots()[i] == prev.slots()[i]);
                    }
                }
                assert forall|w: int| 0 <= w < ir.spec_n_vals() && ir.origin(ValId(w as u32)) != op implies
                    #[trigger] self.val_state(ValId(w as u32)) == old(self).val_state(ValId(w as u32)) by {
                    assert(ValId(w as u32).0 == w);
                    assert(w != rets@[j as int].0);
                    assert(self.val_states().slots()[w] == prev.slots()[w]);
                    assert(prev_self.val_state(ValId(w as u32)) == old(self).val_state(ValId(w as u32)));
                }
                assert forall|i: int| j <= i < rets@.len() implies #[trigger] self.val_state(rets@[i]) == ValState::<V>::Evaluated(orig[i]) by {
                    if i > j {
                        assert(ir.position(rets@[i]) == i);
                        assert(ir.position(rets@[j as int]) == j);
                        assert(rets@[i].0 != rets@[j as int].0);
                        assert(self.val_states().slots()[rets@[i].0 as int] == prev.slots()[rets@[i].0 as int]);
                        assert(prev_self.val_state(rets@[i]) == ValState::<V>::Evaluated(orig[i]));
                    }
                }
            }
        }
    }

    /// Sets the state of `op`.
    fn set_op_state(&mut self, op: OpId, state: OpState)
        requires
            old(self).eval_ir().has_op(op),
            old(self).op_states().spec_len() == old(self).eval_ir().spec_n_ops(),
            old(self).op_states().spec_is_filled(),
            old(self).eval_ir().wf(),
        ensures
            final(self).eval_ir() == old(self).eval_ir(),
            final(self).val_states() == old(self).val_states(),
            final(self).op_states().spec_len() == old(self).op_states().spec_len(),
            final(self).op_states().spec_is_filled(),
            final(self).op_state(op) == state,
            forall|i: int| 0 <= i < old(self).eval_ir().spec_n_ops() && OpId(i as u32) != op ==>
                #[trigger] final(self).op_state(OpId(i as u32)) == old(self).op_state(OpId(i as u32)),
    {
        let ghost prev = self.op_states();
        let _ = self.opmap.insert(op, state);
        proof {
            assert forall|i: int| 0 <= i < self.op_states().spec_len() implies #[trigger] self.op_states().slots()[i] is Some by {
                if i != op.0 {
                    assert(self.op_states().slots()[i] == prev.slots()[i]);
                }
            }
            assert forall|i: int| 0 <= i < self.eval_ir().spec_n_ops() && OpId(i as u32) != op implies
                #[trigger] self.op_state(OpId(i as u32)) == old(self).op_state(OpId(i as u32)) by {
                assert(self.op_states().slots()[i] == prev.slots()[i]);
            }
        }
    }

    /// Pushes a single operation, evaluating it against `context`.
    ///
    /// When some argument is poisoned, the operation and its results inherit the operation
    /// carried by the first poisoned argument in signature order, `eval` is not called and the
    /// context is untouched. Otherwise `eval` is called once, on the argument values in signature
    /// order, and its result is recorded as [`settle_evaluation`](Self::settle_evaluation) tells:
    /// on failure the operation records the message and its results are poisoned by the
    /// operation itself; on success the results are bound to the values returned.
    ///
    /// The operation must be pending, with no pending argument, and the evaluations of its
    /// instruction must fit its signature: an evaluation that breaks it is a fault of the
    /// instruction set, not a failure of the operation.
    pub fn push_op<A: AsOpId>(
        &mut self,
        context: &mut <D::InstructionSet as Evaluable<V>>::Context,
        op: A,
    ) -> (r: Result<(), PushFailure>)
        requires
            old(self).wf(),
            old(self).eval_ir().has_op(op.spec_op_id()),
            old(self).op_state(op.spec_op_id()) is Pending,
            forall|k: int| 0 <= k < old(self).eval_ir().args(op.spec_op_id()).len() ==>
                !(old(self).val_state(#[trigger] old(self).eval_ir().args(op.spec_op_id())[k]) is Pending),
            old(self).op_evaluations_fit(op.spec_op_id()),
        ensures
            r is Ok,
            final(self).wf(),
            old(self).updated_only(&*final(self), op.spec_op_id()),
            final(self).settled(op.spec_op_id()),
            !(final(self).op_state(op.spec_op_id()) is Pending),
            first_poison(old(self).val_states(), old(self).eval_ir().args(op.spec_op_id())) matches Some(p) ==> {
                &&& *final(context) == *old(context)
                &&& final(self).op_state(op.spec_op_id()) == OpState::PoisonedBy(p)
            },
            first_poison(old(self).val_states(), old(self).eval_ir().args(op.spec_op_id())) is None ==>
                exists|result: Result<Seq<V>, String>| {
                    &&& #[trigger] old(self).eval_ir().instr(op.spec_op_id()).evaluates(
                        *old(context),
                        old(self).arg_values(op.spec_op_id()),
                        *final(context),
                        result,
                    )
                    &&& old(self).settled_as(&*final(self), op.spec_op_id(), result)
                },
    {
        let ghost old_self = *self;
        let ghost ir = self.eval_ir();
        let opid = op.op_id();
        let ir_ref: &'ir IR<D> = self.ir;
        let args = ir_ref.get_arg_valids(opid);
        proof {
            ir.lemma_op_wf(opid);
        }
        let mut poison: Option<OpId> = None;
        let mut k: usize = 0;
        while k < args.len()
            invariant
                *self == old_self,
                old_self.wf(),
                ir == old_self.eval_ir(),
                ir.wf(),
                ir.has_op(opid),
                args@ == ir.args(opid),
                k <= args@.len(),
                poison == first_poison(self.val_states(), args@.take(k as int)),
                poison is None ==> forall|j: int| 0 <= j < k ==>
                    !(#[trigger] self.val_states().spec_get(args@[j]) matches Some(ValState::PoisonedBy(_))),
            decreases args@.len() - k,
        {
            proof {
                lemma_first_poison_step(self.val_states(), args@, k as int);
            }
            match self.valmap.get(args[k]) {
                Some(ValState::PoisonedBy(p)) => {
                    if poison.is_none() {
                        poison = Some(*p);
                    }
                },
                _ => {},
            }
            k = k + 1;
        }
        proof {
            assert(args@.take(args@.len() as int) =~= args@);
        }
        if let Some(p) = poison {
            proof {
                lemma_first_poison_some(self.val_states(), args@);
                let k = choose|k: int| 0 <= k < args@.len() && #[trigger] self.val_states().spec_get(args@[k]) == Some(ValState::<V>::PoisonedBy(p));
                let v = args@[k];
                assert(ir.has_val(v));
                assert(self.val_state(ValId(v.0 as u32)) == self.val_state(v));
                assert(self.op_state(p) is Panicked);
                assert(p != opid);
                assert(ir.has_op(p));
            }
            let ghost s0 = *self;
            self.set_op_state(opid, OpState::PoisonedBy(p));
            let ghost s1 = *self;
            self.poison_all(opid, p);
            proof {
                Self::lemma_compose(&s0, &s1, &*self, opid);
                assert(s1.op_state(OpId(p.0 as u32)) == s0.op_state(OpId(p.0 as u32)));
                self.lemma_args_unchanged(&old_self, opid);
                lemma_first_poison_congruent(self.val_states(), old_self.val_states(), args@);
                old_self.lemma_settle_preserves_wf(&*self, opid);
            }
            return Ok(());
        }
        proof {
            lemma_first_poison_none_inv(self.val_states(), args@);
        }
        let instr = ir_ref.get_instruction(opid);
        let sig = instr.get_signature();
        let mut arg_evals: Vec<&V> = Vec::new();
        let mut k: usize = 0;
        while k < args.len()
            invariant
                *self == old_self,
                old_self.wf(),
                ir == old_self.eval_ir(),
                ir.wf(),
                ir.has_op(opid),
                args@ == ir.args(opid),
                k <= args@.len(),
                arg_evals@.len() == k,
                forall|j: int| 0 <= j < args@.len() ==>
                    !(#[trigger] self.val_states().spec_get(args@[j]) matches Some(ValState::PoisonedBy(_))),
                forall|j: int| 0 <= j < args@.len() ==> !(self.val_state(#[trigger] args@[j]) is Pending),
                forall|j: int| 0 <= j < k ==> self.val_state(args@[j]) == ValState::<V>::Evaluated(*#[trigger] arg_evals@[j]),
            decreases args@.len() - k,
        {
            proof {
                let v = args@[k as int];
                assert(ir.has_val(v));
                assert(self.val_states().slots()[v.0 as int] is Some);
                assert(!(self.val_state(v) is Pending));
                assert(!(self.val_states().spec_get(args@[k as int]) matches Some(ValState::PoisonedBy(_))));
            }
            match self.valmap.get(args[k]) {
                Some(ValState::Evaluated(v)) => {
                    arg_evals.push(v);
                },
                _ => {
                    proof {
                        assert(false);
                    }
                },
            }
            k = k + 1;
        }
        let mut k: usize = 0;
        while k < arg_evals.len()
            invariant
                *self == old_self,
                old_self.wf(),
                ir == old_self.eval_ir(),
                ir.wf(),
                ir.has_op(opid),
                args@ == ir.args(opid),
                arg_evals@.len() == args@.len(),
                sig.0@ == ir.instr(opid).spec_arg_types(),
                forall|j: int| 0 <= j < args@.len() ==> self.val_state(args@[j]) == ValState::<V>::Evaluated(*#[trigger] arg_evals@[j]),
                k <= arg_evals@.len(),
            decreases arg_evals@.len() - k,
        {
            proof {
                let v = args@[k as int];
                assert(ir.has_val(v));
                assert(self.val_state(v) == ValState::<V>::Evaluated(*arg_evals@[k as int]));
                self.lemma_evaluated_inhabits(v);
            }
            if !sig.0[k].is_inhabited_by(arg_evals[k]) {
                proof {
                    assert(false);
                }
                return Err(PushFailure::ArgumentTypeMismatch(k));
            }
            k = k + 1;
        }
        proof {
            assert(derefs(arg_evals@) =~= old_self.arg_values(opid));
        }
        let result = instr.eval(context, arg_evals);
        let ghost rv = result_view(result);
        proof {
            old_self.lemma_fit_outcome(opid, *old(context), old_self.arg_values(opid), *context, rv);
        }
        let r = self.settle_evaluation(opid, result);
        proof {
            assert(old_self.eval_ir().instr(opid).evaluates(*old(context), old_self.arg_values(opid), *context, rv));
        }
        r
    }

    /// Records the evaluation of the pending operation `op`, none of whose arguments is pending
    /// or poisoned, that gave `result`. A failure marks `op` failed with its message and poisons
    /// its results by `op`; values of the wrong number give `ReturnArityMismatch`, the first one
    /// that does not inhabit its declared type gives `ReturnTypeMismatch` at its position, and
    /// both leave the evaluator unchanged; otherwise the values are bound to the results of `op`
    /// in position order and `op` is marked evaluated.
    pub fn settle_evaluation(&mut self, op: OpId, result: Result<Vec<V>, String>) -> (r: Result<(), PushFailure>)
        requires
            old(self).wf(),
            old(self).eval_ir().has_op(op),
            old(self).op_state(op) is Pending,
            forall|k: int| 0 <= k < old(self).eval_ir().args(op).len() ==>
                !(old(self).val_state(#[trigger] old(self).eval_ir().args(op)[k]) is Pending),
            first_poison(old(self).val_states(), old(self).eval_ir().args(op)) is None,
        ensures
            r == old(self).outcome(op, result_view(result)),
            match r {
                Ok(()) => {
                    &&& final(self).wf()
                    &&& old(self).settled_as(&*final(self), op, result_view(result))
                    &&& final(self).settled(op)
                },
                Err(_) => *final(self) == *old(self),
            },
    {
        let ghost old_self = *self;
        let ghost ir = self.eval_ir();
        let ghost args = ir.args(op);
        let opid = op;
        let ir_ref: &'ir IR<D> = self.ir;
        proof {
            ir.lemma_op_wf(opid);
        }
        let instr = ir_ref.get_instruction(opid);
        let sig = instr.get_signature();
        let ghost rv = result_view(result);
        match result {
            Err(msg) => {
                let ghost s0 = *self;
                self.set_op_state(opid, OpState::Panicked(msg));
                let ghost s1 = *self;
                self.poison_all(opid, opid);
                proof {
                    Self::lemma_compose(&s0, &s1, &*self, opid);
                    self.lemma_args_unchanged(&old_self, opid);
                    lemma_first_poison_congruent(self.val_states(), old_self.val_states(), args);
                    old_self.lemma_settle_preserves_wf(&*self, opid);
                }
                Ok(())
            },
            Ok(ret_evals) => {
                let rets = ir_ref.get_return_valids(opid);
                if ret_evals.len() != sig.1.len() {
                    return Err(PushFailure::ReturnArityMismatch);
                }
                let mut j: usize = 0;
                while j < ret_evals.len()
                    invariant
                        *self == old_self,
                        old_self == *old(self),
                        opid == op,
                        ir == old_self.eval_ir(),
                        rv == result_view(result),
                        rv == Ok::<Seq<V>, String>(ret_evals@),
                        ret_evals@.len() == sig.1@.len(),
                        sig.1@ == ir.instr(opid).spec_return_types(),
                        j <= ret_evals@.len(),
                        forall|i: int| 0 <= i < j ==> #[trigger] sig.1@[i].spec_inhabited_by(ret_evals@[i]),
                        first_ill_typed(sig.1@, ret_evals@, 0) == first_ill_typed(sig.1@, ret_evals@, j as int),
                    decreases ret_evals@.len() - j,
                {
                    if !sig.1[j].is_inhabited_by(&ret_evals[j]) {
                        proof {
                            assert(first_ill_typed(sig.1@, ret_evals@, j as int) == Some(j as int));
                        }
                        return Err(PushFailure::ReturnTypeMismatch(j));
                    }
                    j = j + 1;
                }
                let ghost values = ret_evals@;
                let ghost s0 = *self;
                self.set_op_state(opid, OpState::Evaluated);
                let ghost s1 = *self;
                self.bind_all(opid, ret_evals);
                proof {
                    Self::lemma_compose(&s0, &s1, &*self, opid);
                    self.lemma_args_unchanged(&old_self, opid);
                    lemma_first_poison_congruent(self.val_states(), old_self.val_states(), args);
                    assert forall|j: int| 0 <= j < rets@.len() implies {
                        &&& #[trigger] self.val_state(rets@[j]) is Evaluated
                        &&& ir.instr(opid).spec_return_types()[j].spec_inhabited_by(self.val_state(rets@[j])->Evaluated_0)
                    } by {
                        assert(self.val_state(rets@[j]) == ValState::<V>::Evaluated(values[j]));
                        assert(sig.1@[j].spec_inhabited_by(values[j]));
                    }
                    old_self.lemma_settle_preserves_wf(&*self, opid);
                }
                Ok(())
            },
        }
    }

    /// Setting the state of `op`, then the states of its results, changes nothing else.
    proof fn lemma_compose(s0: &Self, s1: &Self, s2: &Self, op: OpId)
        requires
            s0.eval_ir().has_op(op),
            s1.eval_ir() == s0.eval_ir(),
            s1.val_states() == s0.val_states(),
            s1.op_states().spec_len() == s0.op_states().spec_len(),
            s1.op_states().spec_is_filled(),
            forall|i: int| 0 <= i < s0.eval_ir().spec_n_ops() && OpId(i as u32) != op ==>
                #[trigger] s1.op_state(OpId(i as u32)) == s0.op_state(OpId(i as u32)),
            s2.eval_ir() == s1.eval_ir(),
            s2.op_states() == s1.op_states(),
            s2.val_states().spec_len() == s1.val_states().spec_len(),
            s2.val_states().spec_is_filled(),
            forall|v: int| 0 <= v < s1.eval_ir().spec_n_vals() && s1.eval_ir().origin(ValId(v as u32)) != op ==>
                #[trigger] s2.val_state(ValId(v as u32)) == s1.val_state(ValId(v as u32)),
        ensures
            s0.updated_only(s2, op),
            s2.op_state(op) == s1.op_state(op),
    {
        let ir = s0.eval_ir();
        assert forall|i: int| 0 <= i < ir.spec_n_ops() && OpId(i as u32) != op implies
            #[trigger] s2.op_state(OpId(i as u32)) == s0.op_state(OpId(i as u32)) by {
            assert(s1.op_state(OpId(i as u32)) == s0.op_state(OpId(i as u32)));
        }
        assert forall|v: int| 0 <= v < ir.spec_n_vals() && ir.origin(ValId(v as u32)) != op implies
            #[trigger] s2.val_state(ValId(v as u32)) == s0.val_state(ValId(v as u32)) by {
            assert(s2.val_state(ValId(v as u32)) == s1.val_state(ValId(v as u32)));
        }
    }

    /// After settling `op`, the arguments of `op` keep their states.
    proof fn lemma_args_unchanged(&self, old_self: &Self, op: OpId)
        requires
            old_self.wf(),
            old_self.eval_ir().has_op(op),
            self.eval_ir() == old_self.eval_ir(),
            forall|v: int| 0 <= v < old_self.eval_ir().spec_n_vals() && old_self.eval_ir().origin(ValId(v as u32)) != op ==>
                #[trigger] self.val_state(ValId(v as u32)) == old_self.val_state(ValId(v as u32)),
            self.val_states().spec_len() == old_self.val_states().spec_len(),
            self.val_states().spec_is_filled(),
        ensures
            forall|k: int| 0 <= k < old_self.eval_ir().args(op).len() ==>
                #[trigger] self.val_states().spec_get(old_self.eval_ir().args(op)[k]) == old_self.val_states().spec_get(old_self.eval_ir().args(op)[k]),
    {
        let ir = old_self.eval_ir();
        ir.lemma_op_wf(op);
        assert forall|k: int| 0 <= k < ir.args(op).len() implies
            #[trigger] self.val_states().spec_get(ir.args(op)[k]) == old_self.val_states().spec_get(ir.args(op)[k]) by {
            let v = ir.args(op)[k];
            assert(ir.origin(v).0 < op.0);
            assert(self.val_state(ValId(v.0 as u32)) == old_self.val_state(ValId(v.0 as u32)));
            assert(self.val_states().slots()[v.0 as int] is Some);
            assert(old_self.val_states().slots()[v.0 as int] is Some);
        }
    }

    /// A value whose defining operation has been pushed is no longer pending.
    pub proof fn lemma_pushed_val(&self, v: ValId)
        requires
            self.wf(),
            self.eval_ir().has_val(v),
            !(self.op_state(self.eval_ir().origin(v)) is Pending),
        ensures
            !(self.val_state(v) is Pending),
    {
        let ir = self.eval_ir();
        ir.lemma_val_wf(v);
        let o = ir.origin(v);
        let j = ir.position(v);
        assert(ir.rets(o)[j] == v);
        assert(self.op_state(OpId(o.0 as u32)) == self.op_state(o));
        assert(self.settled(o));
        assert(self.val_state(ir.rets(o)[j]) == self.val_state(v));
    }

    /// Pushes every operation of the IR in topological order.
    ///
    /// Failures of `eval` do not interrupt the walk: a failing operation poisons its results and
    /// the remaining operations are pushed anyway, so the final state records every
    /// independent failure of the IR, every operation and every value settled. No operation may
    /// have been pushed before, and the evaluations of every operation must fit its signature.
    pub fn push_all(&mut self, context: &mut <D::InstructionSet as Evaluable<V>>::Context) -> (r: Result<(), PushFailure>)
        requires
            old(self).wf(),
            forall|i: int| 0 <= i < old(self).eval_ir().spec_n_ops() ==> #[trigger] old(self).op_state(OpId(i as u32)) is Pending,
            old(self).evaluations_fit(),
        ensures
            r is Ok,
            final(self).wf(),
            final(self).eval_ir() == old(self).eval_ir(),
            final(self).all_pushed(),
            forall|v: int| 0 <= v < final(self).eval_ir().spec_n_vals() ==>
                !(#[trigger] final(self).val_state(ValId(v as u32)) is Pending),
    {
        let ghost ir = self.eval_ir();
        let order = self.ir.walk_ops_topological();
        let mut k: usize = 0;
        while k < order.len()
            invariant
                self.wf(),
                self.eval_ir() == ir,
                ir == old(self).eval_ir(),
                old(self).evaluations_fit(),
                order@ == Seq::new(ir.spec_n_ops(), |i: int| OpId(i as u32)),
                k <= order@.len(),
                forall|i: int| 0 <= i < k ==> !(#[trigger] self.op_state(OpId(i as u32)) is Pending),
                forall|i: int| k <= i < ir.spec_n_ops() ==> #[trigger] self.op_state(OpId(i as u32)) is Pending,
            decreases order@.len() - k,
        {
            let opid = order[k];
            proof {
                assert(opid == OpId(k as u32));
                ir.lemma_op_wf(OpId(k as u32));
                assert forall|j: int| 0 <= j < ir.args(opid).len() implies !(self.val_state(#[trigger] ir.args(opid)[j]) is Pending) by {
                    let v = ir.args(opid)[j];
                    let o = ir.origin(v);
                    assert(o.0 < k);
                    assert(!(self.op_state(OpId(o.0 as u32)) is Pending));
                    self.lemma_pushed_val(v);
                }
                assert(old(self).op_evaluations_fit(OpId(k as u32)));
            }
            let ghost before = *self;
            let _ = self.push_op(context, opid);
            proof {
                assert forall|i: int| 0 <= i < k + 1 implies !(#[trigger] self.op_state(OpId(i as u32)) is Pending) by {
                    if i < k {
                        assert(OpId(i as u32) != opid);
                        assert(before.op_state(OpId(i as u32)) == self.op_state(OpId(i as u32)));
                    }
                }
                assert forall|i: int| k + 1 <= i < ir.spec_n_ops() implies #[trigger] self.op_state(OpId(i as u32)) is Pending by {
                    assert(OpId(i as u32) != opid);
                    assert(before.op_state(OpId(i as u32)) == self.op_state(OpId(i as u32)));
                }
            }
            k = k + 1;
        }
        proof {
            assert forall|v: int| 0 <= v < ir.spec_n_vals() implies !(#[trigger] self.val_state(ValId(v as u32)) is Pending) by {
                let val = ValId(v as u32);
                ir.lemma_val_wf(val);
                let o = ir.origin(val);
                assert(!(self.op_state(OpId(o.0 as u32)) is Pending));
                self.lemma_pushed_val(val);
            }
        }
        Ok(())
    }

    /// Returns the value bound to `valid`.
    ///
    /// Fails with `PendingValId` if the operation producing it has not been pushed yet, and
    /// with `PoisonedValId` carrying the failed operation if it or one of its predecessors failed.
    pub fn get_val<A: AsValId>(&self, valid: A) -> (r: Result<&V, EvalError>)
        requires
            self.wf(),
            self.eval_ir().has_val(valid.spec_val_id()),
        ensures
            match self.val_state(valid.spec_val_id()) {
                ValState::Pending => r == Err::<&V, EvalError>(EvalError::PendingValId),
                ValState::PoisonedBy(p) => r == Err::<&V, EvalError>(EvalError::PoisonedValId(p)),
                ValState::Evaluated(v) => r matches Ok(x) && *x == v,
            },
    {
        let valid = valid.val_id();
        match self.valmap.get(valid) {
            None => Err(EvalError::UnknownValId),
            Some(ValState::Pending) => Err(EvalError::PendingValId),
            Some(ValState::PoisonedBy(opid)) => Err(EvalError::PoisonedValId(*opid)),
            Some(ValState::Evaluated(v)) => Ok(v),
        }
    }

    /// Returns a read-only annotated view of the current evaluation state.
    pub fn as_view(&self) -> (r: AnnIRView<'ir, '_, D, OpState, ValState<V>>)
        requires
            self.wf(),
        ensures
            r.wf(),
            r.view_ir() == self.eval_ir(),
            r.view_op_anns() == self.op_states(),
            r.view_val_anns() == self.val_states(),
    {
        AnnIRView::new(self.ir, &self.opmap, &self.valmap)
    }

    /// Returns `true` if every value of the IR has been evaluated.
    pub fn is_ok(&self) -> (r: bool)
        requires
            self.wf(),
        ensures
            r == self.spec_is_ok(),
    {
        let view = self.as_view();
        let vals = view.walk_vals_linear();
        let mut k: usize = 0;
        while k < vals.len()
            invariant
                self.wf(),
                view.wf(),
                view.view_val_anns() == self.val_states(),
                vals@.len() == self.eval_ir().spec_n_vals(),
                forall|i: int| 0 <= i < vals@.len() ==> view.is_val_ref(#[trigger] vals@[i], ValId(i as u32)),
                k <= vals@.len(),
                forall|i: int| 0 <= i < k ==> #[trigger] self.val_state(ValId(i as u32)) is Evaluated,
            decreases vals@.len() - k,
        {
            assert(view.is_val_ref(vals@[k as int], ValId(k as u32)));
            if !vals[k].get_annotation().is_evaluated() {
                assert(!(self.val_state(ValId(k as u32)) is Evaluated));
                return false;
            }
            k = k + 1;
        }
        true
    }

    /// Consumes the evaluator into an annotated IR holding the evaluation states.
    pub fn into_eval_ir(self) -> (r: AnnIR<'ir, D, OpState, ValState<V>>)
        requires
            self.wf(),
        ensures
            r.wf(),
            *r.ir == self.eval_ir(),
            r.op_annotations == self.op_states(),
            r.val_annotations == self.val_states(),
    {
        AnnIR::new(self.ir, self.opmap, self.valmap)
    }

    /// Consumes the evaluator into an annotated IR holding the values themselves.
    ///
    /// Every operation must have evaluated successfully.
    pub fn into_value_ir(self) -> (r: AnnIR<'ir, D, (), V>)
        requires
            self.wf(),
            forall|i: int| 0 <= i < self.eval_ir().spec_n_ops() ==> #[trigger] self.op_state(OpId(i as u32)) is Evaluated,
        ensures
            r.wf(),
            *r.ir == self.eval_ir(),
            forall|v: int| 0 <= v < self.eval_ir().spec_n_vals() ==>
                #[trigger] r.val_annotations.spec_get(ValId(v as u32)) == Some(self.val_state(ValId(v as u32))->Evaluated_0),
    {
        let ghost old_self = self;
        let ghost ir = self.eval_ir();
        proof {
            assert forall|v: int| 0 <= v < ir.spec_n_vals() implies #[trigger] self.val_state(ValId(v as u32)) is Evaluated by {
                let val = ValId(v as u32);
                ir.lemma_val_wf(ValId(v as u32));
                let o = ir.origin(val);
                assert(self.op_state(OpId(o.0 as u32)) is Evaluated);
                assert(self.settled(o));
                assert(ir.rets(o)[ir.position(val)] == val);
                if first_poison(self.val_states(), ir.args(o)) is Some {
                } else {
                    assert(self.val_state(ir.rets(o)[ir.position(val)]) is Evaluated);
                }
            }
        }
        let EagerEvaluator { valmap, opmap, ir: ir_ref } = self;
        let mut valmap = valmap;
        let n = ir_ref.n_vals();
        let mut vals: Vec<Option<V>> = Vec::new();
        let mut k: usize = 0;
        while k < n
            invariant
                n == ir.spec_n_vals(),
                n <= u32::MAX,
                k <= n,
                valmap.spec_len() == n,
                vals@.len() == k,
                forall|v: int| k <= v < n ==> #[trigger] valmap.spec_get(ValId(v as u32)) == old_self.val_states().spec_get(ValId(v as u32)),
                forall|v: int| 0 <= v < n ==> #[trigger] old_self.val_state(ValId(v as u32)) is Evaluated,
                forall|v: int| 0 <= v < n ==> #[trigger] old_self.val_states().spec_get(ValId(v as u32)) is Some,
                forall|v: int| 0 <= v < k ==> #[trigger] vals@[v] == Some(old_self.val_state(ValId(v as u32))->Evaluated_0),
            decreases n - k,
        {
            assert(old_self.val_state(ValId(k as u32)) is Evaluated);
            let ghost prev = valmap;
            let st = valmap.take(ValId(k as u32));
            proof {
                assert forall|v: int| k + 1 <= v < n implies #[trigger] valmap.spec_get(ValId(v as u32))
                    == old_self.val_states().spec_get(ValId(v as u32)) by {
                    assert(valmap.slots()[v] == prev.slots()[v]);
                    assert(prev.spec_get(ValId(v as u32)) == old_self.val_states().spec_get(ValId(v as u32)));
                }
            }
            match st {
                Some(ValState::Evaluated(v)) => {
                    vals.push(Some(v));
                },
                _ => {
                    assert(false);
                    vals.push(None);
                },
            }
            k = k + 1;
        }
        let mut ops: Vec<Option<()>> = Vec::new();
        let n_ops = ir_ref.n_ops();
        let mut k: usize = 0;
        while k < n_ops
            invariant
                k <= n_ops,
                ops@.len() == k,
                forall|i: int| 0 <= i < k ==> #[trigger] ops@[i] == Some(()),
            decreases n_ops - k,
        {
            ops.push(Some(()));
            k = k + 1;
        }
        let r = AnnIR::new(ir_ref, OpMap::from_slots(ops), ValMap::from_slots(vals));
        proof {
            assert forall|i: int| 0 <= i < r.op_annotations.spec_len() implies #[trigger] r.op_annotations.slots()[i] is Some by {
                assert(ops@[i] == Some(()));
            }
            assert forall|i: int| 0 <= i < r.val_annotations.spec_len() implies #[trigger] r.val_annotations.slots()[i] is Some by {
                assert(vals@[i] == Some(old_self.val_state(ValId(i as u32))->Evaluated_0));
            }
            assert forall|v: int| 0 <= v < ir.spec_n_vals() implies
                #[trigger] r.val_annotations.spec_get(ValId(v as u32)) == Some(old_self.val_state(ValId(v as u32))->Evaluated_0) by {
                assert(vals@[v] == Some(old_self.val_state(ValId(v as u32))->Evaluated_0));
            }
        }
        r
    }
}

} // verus!
