//! Append-only SSA intermediate representation shared by every dialect.
//!
//! An [`IR`] stores operations in insertion order; each operation reads values produced by
//! earlier operations and defines fresh values of its own. Because arguments must already exist
//! when an operation is added, insertion order is always a topological order of the dataflow.
use vstd::prelude::*;
use crate::ids::{OpId, ValId};

verus! {

/// Type system of a dialect: the kinds of values its operations exchange.
pub trait DialectTypeSystem: Sized + Copy {
    /// Returns whether two types are the same.
    fn same_type(&self, other: &Self) -> (r: bool)
        ensures
            r == (*self == *other),
    ;
}

/// The argument and return types of an instruction.
pub struct Signature<T>(pub Vec<T>, pub Vec<T>);

impl<T> Signature<T> {
    /// Returns the argument types, in position order.
    pub fn get_args(&self) -> (r: &Vec<T>)
        ensures
            r@ == self.0@,
    {
        &self.0
    }

    /// Returns the return types, in position order.
    pub fn get_returns(&self) -> (r: &Vec<T>)
        ensures
            r@ == self.1@,
    {
        &self.1
    }
}

/// Instruction set of a dialect: every instruction has a fixed signature.
pub trait DialectInstructionSet: Sized {
    /// The types exchanged by the instructions.
    type TypeSystem: DialectTypeSystem;

    /// The argument types of the instruction.
    spec fn spec_arg_types(&self) -> Seq<Self::TypeSystem>;

    /// The return types of the instruction.
    spec fn spec_return_types(&self) -> Seq<Self::TypeSystem>;

    /// Returns the signature of the instruction.
    fn get_signature(&self) -> (r: Signature<Self::TypeSystem>)
        ensures
            r.0@ == self.spec_arg_types(),
            r.1@ == self.spec_return_types(),
    ;
}

/// A dialect: binds an instruction set (and through it a type system) to an IR.
pub trait Dialect {
    /// The dialect's instructions.
    type InstructionSet: DialectInstructionSet;
}

/// Error returned when an operation cannot be added to an IR.
#[derive(Debug, Clone, PartialEq, Eq)]
pub enum Failure<T> {
    /// An argument refers to a value the IR does not hold.
    UnknownValue(ValId),
    /// An argument refers to a value that is no longer active.
    InactiveValue(ValId),
    /// The argument types differ from those the instruction's signature expects.
    SignatureMismatch { expected: Vec<T>, actual: Vec<T> },
    /// A counter tracking the operation overflowed.
    DepthOverflow,
}

/// One operation of an IR: its instruction, the values it reads and the values it defines.
pub struct Operation<I> {
    /// The instruction.
    pub instruction: I,
    /// Values read, in signature order.
    pub args: Vec<ValId>,
    /// Values defined, in signature order.
    pub returns: Vec<ValId>,
}

/// One value of an IR: the operation defining it and its return position there.
#[derive(Debug, Clone, Copy, PartialEq, Eq)]
pub struct Value {
    /// The defining operation.
    pub origin: OpId,
    /// Return position in the defining operation.
    pub position: usize,
}

/// Whether `op` appears in `order` strictly before position `a`.
pub open spec fn listed_before(order: Seq<OpId>, a: int, op: OpId) -> bool {
    exists|b: int| 0 <= b < a && #[trigger] order[b] == op
}

/// Intermediate representation of a program in dialect `D`.
pub struct IR<D: Dialect> {
    ops: Vec<Operation<D::InstructionSet>>,
    vals: Vec<Value>,
}

/// The type system of a dialect.
pub type TypeOf<D> = <<D as Dialect>::InstructionSet as DialectInstructionSet>::TypeSystem;

impl<D: Dialect> IR<D> {
    /// The operations, in insertion order.
    pub closed spec fn spec_ops(&self) -> Seq<Operation<D::InstructionSet>> {
        self.ops@
    }

    /// The values, in creation order.
    pub closed spec fn spec_vals(&self) -> Seq<Value> {
        self.vals@
    }

    /// Number of operations.
    pub open spec fn spec_n_ops(&self) -> nat {
        self.spec_ops().len()
    }

    /// Number of values.
    pub open spec fn spec_n_vals(&self) -> nat {
        self.spec_vals().len()
    }

    /// Whether `op` names an operation of this IR.
    pub open spec fn has_op(&self, op: OpId) -> bool {
        op.0 < self.spec_n_ops()
    }

    /// Whether `v` names a value of this IR.
    pub open spec fn has_val(&self, v: ValId) -> bool {
        v.0 < self.spec_n_vals()
    }

    /// The instruction of `op`.
    pub open spec fn instr(&self, op: OpId) -> D::InstructionSet {
        self.spec_ops()[op.0 as int].instruction
    }

    /// The arguments of `op`.
    pub open spec fn args(&self, op: OpId) -> Seq<ValId> {
        self.spec_ops()[op.0 as int].args@
    }

    /// The return values of `op`.
    pub open spec fn rets(&self, op: OpId) -> Seq<ValId> {
        self.spec_ops()[op.0 as int].returns@
    }

    /// The operation defining `v`.
    pub open spec fn origin(&self, v: ValId) -> OpId {
        self.spec_vals()[v.0 as int].origin
    }

    /// The return position of `v` in its defining operation.
    pub open spec fn position(&self, v: ValId) -> int {
        self.spec_vals()[v.0 as int].position as int
    }

    /// The type of `v`, as declared by its defining instruction.
    pub open spec fn val_type(&self, v: ValId) -> TypeOf<D> {
        self.instr(self.origin(v)).spec_return_types()[self.position(v)]
    }

    /// The types of a sequence of values.
    pub open spec fn val_types(&self, vs: Seq<ValId>) -> Seq<TypeOf<D>> {
        Seq::new(vs.len(), |k: int| self.val_type(vs[k]))
    }

    /// Structural well-formedness: value tables agree with operations, arguments are defined
    /// by earlier operations and match the signatures.
    pub open spec fn wf(&self) -> bool {
        &&& self.spec_n_ops() <= u32::MAX
        &&& self.spec_n_vals() <= u32::MAX
        &&& forall|i: int|
            #![trigger self.spec_ops()[i]]
            0 <= i < self.spec_n_ops() ==> {
                let op = OpId(i as u32);
                &&& self.rets(op).len() == self.instr(op).spec_return_types().len()
                &&& self.args(op).len() == self.instr(op).spec_arg_types().len()
                &&& forall|j: int|
                    #![trigger self.rets(op)[j]]
                    0 <= j < self.rets(op).len() ==> {
                        &&& self.has_val(self.rets(op)[j])
                        &&& self.origin(self.rets(op)[j]) == op
                        &&& self.position(self.rets(op)[j]) == j
                    }
                &&& forall|k: int|
                    #![trigger self.args(op)[k]]
                    0 <= k < self.args(op).len() ==> {
                        &&& self.has_val(self.args(op)[k])
                        &&& self.origin(self.args(op)[k]).0 < i
                        &&& self.val_type(self.args(op)[k]) == self.instr(op).spec_arg_types()[k]
                    }
            }
        &&& forall|v: int|
            #![trigger self.spec_vals()[v]]
            0 <= v < self.spec_n_vals() ==> {
                let val = ValId(v as u32);
                &&& self.has_op(self.origin(val))
                &&& 0 <= self.position(val) < self.rets(self.origin(val)).len()
                &&& self.rets(self.origin(val))[self.position(val)] == val
            }
    }

    /// Whether `instr` applied to `args` can be added: every argument exists, the argument
    /// types match the signature, and the identifiers of the new operation and values fit.
    pub open spec fn accepts(&self, instr: D::InstructionSet, args: Seq<ValId>) -> bool {
        &&& forall|k: int| 0 <= k < args.len() ==> #[trigger] self.has_val(args[k])
        &&& self.val_types(args) == instr.spec_arg_types()
        &&& self.spec_n_ops() < u32::MAX
        &&& self.spec_n_vals() + instr.spec_return_types().len() <= u32::MAX
    }

    /// The IR obtained by adding `instr` on `args`, whose fresh values are numbered from the
    /// current value count.
    pub open spec fn added(&self, next: &Self, instr: D::InstructionSet, args: Seq<ValId>) -> bool {
        let op = OpId(self.spec_n_ops() as u32);
        let k = instr.spec_return_types().len();
        &&& next.spec_n_ops() == self.spec_n_ops() + 1
        &&& next.spec_n_vals() == self.spec_n_vals() + k
        &&& forall|i: int| 0 <= i < self.spec_n_ops() ==> #[trigger] next.spec_ops()[i] == self.spec_ops()[i]
        &&& forall|v: int| 0 <= v < self.spec_n_vals() ==> #[trigger] next.spec_vals()[v] == self.spec_vals()[v]
        &&& next.instr(op) == instr
        &&& next.args(op) == args
        &&& next.rets(op) == Seq::new(k, |j: int| ValId((self.spec_n_vals() + j) as u32))
    }

    /// Replaces the instruction of `op` by `instr`, which has the same signature, and returns
    /// the instruction replaced; arguments, results and every other operation stay.
    pub fn replace_instruction(&mut self, op: OpId, instr: D::InstructionSet) -> (r: D::InstructionSet)
        requires
            old(self).wf(),
            old(self).has_op(op),
            instr.spec_arg_types() == old(self).instr(op).spec_arg_types(),
            instr.spec_return_types() == old(self).instr(op).spec_return_types(),
        ensures
            final(self).wf(),
            r == old(self).instr(op),
            final(self).spec_n_ops() == old(self).spec_n_ops(),
            final(self).spec_vals() == old(self).spec_vals(),
            final(self).instr(op) == instr,
            final(self).args(op) == old(self).args(op),
            final(self).rets(op) == old(self).rets(op),
            forall|i: int| 0 <= i < old(self).spec_n_ops() && i != op.0 ==> #[trigger] final(self).spec_ops()[i] == old(self).spec_ops()[i],
    {
        let ghost prev = *self;
        let i = op.0 as usize;
        let Operation { instruction, args, returns } = self.ops.remove(i);
        self.ops.insert(i, Operation { instruction: instr, args, returns });
        proof {
            assert forall|j: int| 0 <= j < prev.spec_n_ops() && j != i implies #[trigger] self.spec_ops()[j] == prev.spec_ops()[j] by {}
            assert forall|o: int| 0 <= o < self.spec_n_ops() implies #[trigger] self.instr(OpId(o as u32)).spec_return_types()
                == prev.instr(OpId(o as u32)).spec_return_types() by {
                if o != i {
                    assert(self.spec_ops()[o] == prev.spec_ops()[o]);
                }
            }
            assert forall|v: ValId| prev.has_val(v) implies #[trigger] self.val_type(v) == prev.val_type(v) by {
                prev.lemma_val_wf(v);
                let o = prev.origin(v);
                assert(prev.has_op(o));
                assert(self.instr(OpId(o.0 as u32)).spec_return_types() == prev.instr(OpId(o.0 as u32)).spec_return_types());
            }
            assert forall|j: int| #![trigger self.spec_ops()[j]] 0 <= j < self.spec_n_ops() implies {
                let o = OpId(j as u32);
                &&& self.rets(o).len() == self.instr(o).spec_return_types().len()
                &&& self.args(o).len() == self.instr(o).spec_arg_types().len()
                &&& forall|m: int| #![trigger self.rets(o)[m]] 0 <= m < self.rets(o).len() ==> {
                    &&& self.has_val(self.rets(o)[m])
                    &&& self.origin(self.rets(o)[m]) == o
                    &&& self.position(self.rets(o)[m]) == m
                }
                &&& forall|k: int| #![trigger self.args(o)[k]] 0 <= k < self.args(o).len() ==> {
                    &&& self.has_val(self.args(o)[k])
                    &&& self.origin(self.args(o)[k]).0 < j
                    &&& self.val_type(self.args(o)[k]) == self.instr(o).spec_arg_types()[k]
                }
            } by {
                prev.lemma_op_wf(OpId(j as u32));
                let o = OpId(j as u32);
                assert forall|k: int| #![trigger self.args(o)[k]] 0 <= k < self.args(o).len() implies
                    self.val_type(self.args(o)[k]) == self.instr(o).spec_arg_types()[k] by {
                    assert(self.args(o)[k] == prev.args(o)[k]);
                    assert(prev.has_val(prev.args(o)[k]));
                    assert(self.val_type(prev.args(o)[k]) == prev.val_type(prev.args(o)[k]));
                }
            }
            assert forall|v: int| #![trigger self.spec_vals()[v]] 0 <= v < self.spec_n_vals() implies {
                let val = ValId(v as u32);
                &&& self.has_op(self.origin(val))
                &&& 0 <= self.position(val) < self.rets(self.origin(val)).len()
                &&& self.rets(self.origin(val))[self.position(val)] == val
            } by {
                prev.lemma_val_wf(ValId(v as u32));
                let o = prev.origin(ValId(v as u32));
                assert(self.spec_ops()[o.0 as int].returns == prev.spec_ops()[o.0 as int].returns);
            }
        }
        instruction
    }

    /// What well-formedness says of operation `op`: its signature sizes its arguments and
    /// results, its results name it as their origin, and its arguments are earlier values of
    /// the declared types.
    pub proof fn lemma_op_wf(&self, op: OpId)
        requires
            self.wf(),
            self.has_op(op),
        ensures
            self.rets(op).len() == self.instr(op).spec_return_types().len(),
            self.args(op).len() == self.instr(op).spec_arg_types().len(),
            forall|j: int| #![trigger self.rets(op)[j]] 0 <= j < self.rets(op).len() ==> {
                &&& self.has_val(self.rets(op)[j])
                &&& self.origin(self.rets(op)[j]) == op
                &&& self.position(self.rets(op)[j]) == j
            },
            forall|k: int| #![trigger self.args(op)[k]] 0 <= k < self.args(op).len() ==> {
                &&& self.has_val(self.args(op)[k])
                &&& self.origin(self.args(op)[k]).0 < op.0
                &&& self.val_type(self.args(op)[k]) == self.instr(op).spec_arg_types()[k]
            },
    {
        assert(self.spec_ops()[op.0 as int] == self.spec_ops()[op.0 as int]);
    }

    /// What well-formedness says of value `v`: it is a result of an operation of the IR, at its
    /// recorded position.
    pub proof fn lemma_val_wf(&self, v: ValId)
        requires
            self.wf(),
            self.has_val(v),
        ensures
            self.has_op(self.origin(v)),
            0 <= self.position(v) < self.rets(self.origin(v)).len(),
            self.rets(self.origin(v))[self.position(v)] == v,
    {
        assert(self.spec_vals()[v.0 as int] == self.spec_vals()[v.0 as int]);
    }

    /// Creates an IR with no operation.
    pub fn empty() -> (r: Self)
        ensures
            r.wf(),
            r.spec_n_ops() == 0,
            r.spec_n_vals() == 0,
    {
        IR { ops: Vec::new(), vals: Vec::new() }
    }

    /// Returns the number of operations.
    pub fn n_ops(&self) -> (r: usize)
        ensures
            r == self.spec_n_ops(),
    {
        self.ops.len()
    }

    /// Returns the number of values.
    pub fn n_vals(&self) -> (r: usize)
        ensures
            r == self.spec_n_vals(),
    {
        self.vals.len()
    }

    /// Returns the instruction of `op`.
    pub fn get_instruction(&self, op: OpId) -> (r: &D::InstructionSet)
        requires
            self.has_op(op),
        ensures
            *r == self.instr(op),
    {
        &self.ops[op.0 as usize].instruction
    }

    /// Returns the arguments of `op`.
    pub fn get_arg_valids(&self, op: OpId) -> (r: &Vec<ValId>)
        requires
            self.has_op(op),
        ensures
            r@ == self.args(op),
    {
        &self.ops[op.0 as usize].args
    }

    /// Returns the values defined by `op`.
    pub fn get_return_valids(&self, op: OpId) -> (r: &Vec<ValId>)
        requires
            self.has_op(op),
        ensures
            r@ == self.rets(op),
    {
        &self.ops[op.0 as usize].returns
    }

    /// Returns the operation defining `v` and the return position of `v` in it.
    pub fn get_origin(&self, v: ValId) -> (r: (OpId, usize))
        requires
            self.has_val(v),
        ensures
            r.0 == self.origin(v),
            r.1 == self.position(v),
    {
        let value = self.vals[v.0 as usize];
        (value.origin, value.position)
    }

    /// Returns every operation in insertion order.
    pub fn walk_ops_linear(&self) -> (r: Vec<OpId>)
        requires
            self.wf(),
        ensures
            r@ == Seq::new(self.spec_n_ops(), |i: int| OpId(i as u32)),
    {
        OpId::range(0, self.ops.len() as u32)
    }

    /// Returns every operation in an order where each operation comes after the operations
    /// defining its arguments. Insertion order is such an order.
    pub fn walk_ops_topological(&self) -> (r: Vec<OpId>)
        requires
            self.wf(),
        ensures
            r@ == Seq::new(self.spec_n_ops(), |i: int| OpId(i as u32)),
            self.is_topological(r@),
    {
        let r = self.walk_ops_linear();
        proof {
            self.lemma_linear_is_topological(r@);
        }
        r
    }

    /// Insertion order is a topological order of a well-formed IR.
    pub proof fn lemma_linear_is_topological(&self, order: Seq<OpId>)
        requires
            self.wf(),
            order.len() == self.spec_n_ops(),
            forall|i: int| 0 <= i < order.len() ==> #[trigger] order[i] == OpId(i as u32),
        ensures
            self.is_topological(order),
    {
        assert forall|a: int, k: int|
            #![trigger self.args(order[a])[k]]
            0 <= a < order.len() && 0 <= k < self.args(order[a]).len() implies listed_before(
                order,
                a,
                self.origin(self.args(order[a])[k]),
            ) by {
            assert(order[a] == OpId(a as u32));
            self.lemma_op_wf(OpId(a as u32));
            let o = self.origin(self.args(order[a])[k]);
            assert(o.0 < a);
            assert(order[o.0 as int] == OpId(o.0 as u32));
            assert(order[o.0 as int] == o);
            assert(listed_before(order, a, o));
        }
        assert forall|a: int| 0 <= a < order.len() implies self.has_op(#[trigger] order[a]) by {
            assert(order[a] == OpId(a as u32));
        }
        assert forall|a: int, b: int| 0 <= a < b < order.len() implies order[a] != order[b] by {
            assert(order[a] == OpId(a as u32));
            assert(order[b] == OpId(b as u32));
        }
    }

    /// Whether `order` lists each operation exactly once, every operation after the operations
    /// defining its arguments.
    pub open spec fn is_topological(&self, order: Seq<OpId>) -> bool {
        &&& order.len() == self.spec_n_ops()
        &&& forall|a: int| 0 <= a < order.len() ==> self.has_op(#[trigger] order[a])
        &&& forall|a: int, b: int| 0 <= a < b < order.len() ==> order[a] != order[b]
        &&& forall|a: int, k: int|
            #![trigger self.args(order[a])[k]]
            0 <= a < order.len() && 0 <= k < self.args(order[a]).len() ==> listed_before(
                order,
                a,
                self.origin(self.args(order[a])[k]),
            )
    }

    /// Returns every value in creation order.
    pub fn walk_vals_linear(&self) -> (r: Vec<ValId>)
        requires
            self.wf(),
        ensures
            r@ == Seq::new(self.spec_n_vals(), |i: int| ValId(i as u32)),
    {
        ValId::range(0, self.vals.len() as u32)
    }

    /// Adds `instr` applied to `args`, returning the new operation and its fresh values.
    ///
    /// Fails with `UnknownValue` naming the first argument the IR does not hold, or with
    /// `SignatureMismatch` when the argument types differ from the signature.
    pub fn try_add_op(&mut self, instr: D::InstructionSet, args: Vec<ValId>) -> (r: Result<
        (OpId, Vec<ValId>),
        Failure<TypeOf<D>>,
    >)
        requires
            old(self).wf(),
            old(self).spec_n_ops() < u32::MAX,
            old(self).spec_n_vals() + instr.spec_return_types().len() <= u32::MAX,
        ensures
            final(self).wf(),
            match r {
                Ok((op, rets)) => {
                    &&& old(self).accepts(instr, args@)
                    &&& old(self).added(&*final(self), instr, args@)
                    &&& op == OpId(old(self).spec_n_ops() as u32)
                    &&& rets@ == final(self).rets(op)
                },
                Err(Failure::UnknownValue(v)) => {
                    &&& *final(self) == *old(self)
                    &&& exists|k: int|
                        0 <= k < args@.len() && args@[k] == v && !old(self).has_val(v) && forall|
                            j: int,
                        | 0 <= j < k ==> #[trigger] old(self).has_val(args@[j])
                },
                Err(Failure::SignatureMismatch { expected, actual }) => {
                    &&& *final(self) == *old(self)
                    &&& forall|k: int| 0 <= k < args@.len() ==> #[trigger] old(self).has_val(args@[k])
                    &&& expected@ == instr.spec_arg_types()
                    &&& actual@ == old(self).val_types(args@)
                    &&& actual@ != expected@
                },
                Err(_) => false,
            },
    {
        let mut k: usize = 0;
        while k < args.len()
            invariant
                self.wf(),
                *self == *old(self),
                k <= args@.len(),
                forall|j: int| 0 <= j < k ==> #[trigger] self.has_val(args@[j]),
            decreases args@.len() - k,
        {
            if args[k].0 as usize >= self.vals.len() {
                return Err(Failure::UnknownValue(args[k]));
            }
            k = k + 1;
        }
        let sig = instr.get_signature();
        let mut actual: Vec<TypeOf<D>> = Vec::new();
        let mut k: usize = 0;
        while k < args.len()
            invariant
                self.wf(),
                k <= args@.len(),
                forall|j: int| 0 <= j < args@.len() ==> #[trigger] self.has_val(args@[j]),
                actual@ == self.val_types(args@.take(k as int)),
                *self == *old(self),
            decreases args@.len() - k,
        {
            proof {
                let v = args@[k as int];
                assert(self.has_val(v));
                self.lemma_val_wf(v);
                let o = self.origin(v);
                self.lemma_op_wf(o);
            }
            let value = self.vals[args[k].0 as usize];
            let ty = self.ops[value.origin.0 as usize].instruction.get_signature().1[value.position];
            actual.push(ty);
            k = k + 1;
            assert(actual@ =~= self.val_types(args@.take(k as int)));
        }
        assert(args@.take(args@.len() as int) =~= args@);
        let expected = sig.0;
        let mut same = expected.len() == actual.len();
        let mut j: usize = 0;
        while same && j < actual.len()
            invariant
                j <= actual@.len(),
                same ==> expected@.len() == actual@.len(),
                same ==> forall|i: int| 0 <= i < j ==> expected@[i] == actual@[i],
                !same ==> expected@ != actual@,
            decreases actual@.len() - j,
        {
            if !expected[j].same_type(&actual[j]) {
                same = false;
            }
            j = j + 1;
        }
        if !same {
            return Err(Failure::SignatureMismatch { expected, actual });
        }
        assert(expected@ =~= actual@);
        Ok(self.add_op(instr, args))
    }

    /// Adds `instr` applied to `args`, returning the new operation and its fresh values.
    pub fn add_op(&mut self, instr: D::InstructionSet, args: Vec<ValId>) -> (r: (OpId, Vec<ValId>))
        requires
            old(self).wf(),
            old(self).accepts(instr, args@),
        ensures
            final(self).wf(),
            old(self).added(&*final(self), instr, args@),
            r.0 == OpId(old(self).spec_n_ops() as u32),
            r.1@ == final(self).rets(r.0),
    {
        let ghost old_ir = *self;
        let op = OpId(self.ops.len() as u32);
        let n_rets = instr.get_signature().1.len();
        let start = self.vals.len();
        let mut rets: Vec<ValId> = Vec::new();
        let mut j: usize = 0;
        while j < n_rets
            invariant
                self.wf(),
                *self == old_ir,
                start == self.spec_n_vals(),
                op == OpId(self.spec_n_ops() as u32),
                n_rets == instr.spec_return_types().len(),
                start + n_rets <= u32::MAX,
                self.spec_n_ops() < u32::MAX,
                j <= n_rets,
                rets@ == Seq::new(j as nat, |i: int| ValId((start + i) as u32)),
            decreases n_rets - j,
        {
            rets.push(ValId((start + j) as u32));
            j = j + 1;
            assert(rets@ =~= Seq::new(j as nat, |i: int| ValId((start + i) as u32)));
        }
        let mut j: usize = 0;
        while j < n_rets
            invariant
                old_ir.wf(),
                self.ops@ == old_ir.ops@,
                self.vals@.len() == start + j,
                start == old_ir.spec_n_vals(),
                op == OpId(old_ir.spec_n_ops() as u32),
                start + n_rets <= u32::MAX,
                j <= n_rets,
                forall|v: int| 0 <= v < start ==> #[trigger] self.vals@[v] == old_ir.vals@[v],
                forall|v: int|
                    start <= v < start + j ==> #[trigger] self.vals@[v] == (Value {
                        origin: op,
                        position: (v - start) as usize,
                    }),
            decreases n_rets - j,
        {
            self.vals.push(Value { origin: op, position: j });
            j = j + 1;
        }
        let ret_copy = rets.clone();
        self.ops.push(Operation { instruction: instr, args, returns: ret_copy });
        proof {
            assert(self.ops@.len() == old_ir.ops@.len() + 1);
            assert forall|i: int| #![trigger self.spec_ops()[i]] 0 <= i < self.spec_n_ops() implies {
                let o = OpId(i as u32);
                &&& self.rets(o).len() == self.instr(o).spec_return_types().len()
                &&& self.args(o).len() == self.instr(o).spec_arg_types().len()
                &&& forall|j: int| #![trigger self.rets(o)[j]]
                    0 <= j < self.rets(o).len() ==> {
                        &&& self.has_val(self.rets(o)[j])
                        &&& self.origin(self.rets(o)[j]) == o
                        &&& self.position(self.rets(o)[j]) == j
                    }
                &&& forall|k: int| #![trigger self.args(o)[k]]
                    0 <= k < self.args(o).len() ==> {
                        &&& self.has_val(self.args(o)[k])
                        &&& self.origin(self.args(o)[k]).0 < i
                        &&& self.val_type(self.args(o)[k]) == self.instr(o).spec_arg_types()[k]
                    }
            } by {
                let o = OpId(i as u32);
                if i < old_ir.spec_n_ops() {
                    assert(self.spec_ops()[i] == old_ir.spec_ops()[i]);
                    old_ir.lemma_op_wf(OpId(i as u32));
                    assert forall|k: int| #![trigger self.args(o)[k]]
                        0 <= k < self.args(o).len() implies {
                        &&& self.has_val(self.args(o)[k])
                        &&& self.origin(self.args(o)[k]).0 < i
                        &&& self.val_type(self.args(o)[k]) == self.instr(o).spec_arg_types()[k]
                    } by {
                        assert(old_ir.args(o)[k] == self.args(o)[k]);
                        let v = self.args(o)[k];
                        assert(self.spec_vals()[v.0 as int] == old_ir.spec_vals()[v.0 as int]);
                        let og = old_ir.origin(v);
                        assert(self.spec_ops()[og.0 as int] == old_ir.spec_ops()[og.0 as int]);
                    }
                    assert forall|j: int| #![trigger self.rets(o)[j]]
                        0 <= j < self.rets(o).len() implies {
                        &&& self.has_val(self.rets(o)[j])
                        &&& self.origin(self.rets(o)[j]) == o
                        &&& self.position(self.rets(o)[j]) == j
                    } by {
                        assert(old_ir.rets(o)[j] == self.rets(o)[j]);
                        let v = self.rets(o)[j];
                        assert(self.spec_vals()[v.0 as int] == old_ir.spec_vals()[v.0 as int]);
                    }
                } else {
                    assert(i == old_ir.spec_n_ops());
                    assert forall|k: int| #![trigger self.args(o)[k]]
                        0 <= k < self.args(o).len() implies {
                        &&& self.has_val(self.args(o)[k])
                        &&& self.origin(self.args(o)[k]).0 < i
                        &&& self.val_type(self.args(o)[k]) == self.instr(o).spec_arg_types()[k]
                    } by {
                        let v = args@[k];
                        assert(old_ir.has_val(v));
                        old_ir.lemma_val_wf(v);
                        assert(self.spec_vals()[v.0 as int] == old_ir.spec_vals()[v.0 as int]);
                        let og = old_ir.origin(v);
                        assert(self.spec_ops()[og.0 as int] == old_ir.spec_ops()[og.0 as int]);
                        assert(old_ir.val_types(args@)[k] == old_ir.val_type(v));
                    }
                    assert forall|j: int| #![trigger self.rets(o)[j]]
                        0 <= j < self.rets(o).len() implies {
                        &&& self.has_val(self.rets(o)[j])
                        &&& self.origin(self.rets(o)[j]) == o
                        &&& self.position(self.rets(o)[j]) == j
                    } by {
                        let v = self.rets(o)[j];
                        assert(v == ValId((start + j) as u32));
                        assert(self.vals@[start + j] == (Value { origin: op, position: j as usize }));
                    }
                }
            }
            assert forall|v: int| #![trigger self.spec_vals()[v]] 0 <= v < self.spec_n_vals() implies {
                let val = ValId(v as u32);
                &&& self.has_op(self.origin(val))
                &&& 0 <= self.position(val) < self.rets(self.origin(val)).len()
                &&& self.rets(self.origin(val))[self.position(val)] == val
            } by {
                let val = ValId(v as u32);
                if v < start {
                    assert(self.spec_vals()[v] == old_ir.spec_vals()[v]);
                    old_ir.lemma_val_wf(ValId(v as u32));
                    let og = old_ir.origin(val);
                    assert(self.spec_ops()[og.0 as int] == old_ir.spec_ops()[og.0 as int]);
                } else {
                    assert(self.vals@[v] == (Value { origin: op, position: (v - start) as usize }));
                }
            }
            assert(self.rets(op) =~= Seq::new(n_rets as nat, |j: int| ValId((start + j) as u32)));
        }
        (op, rets)
    }
}

} // verus!
