//! Read-only annotated views over an IR, pairing operations and values with attached data.
use vstd::prelude::*;
use crate::ids::{AsOpId, AsValId, OpId, ValId};
use crate::idmap::{OpMap, ValMap};
use crate::ir::{Dialect, IR};

verus! {

/// Reference to one operation of an IR.
pub struct OpRef<'ir, D: Dialect> {
    /// The IR holding the operation.
    pub ir: &'ir IR<D>,
    /// The operation.
    pub id: OpId,
}

impl<'ir, D: Dialect> OpRef<'ir, D> {
    /// Returns the referenced operation's identifier.
    pub fn get_id(&self) -> (r: OpId)
        ensures
            r == self.id,
    {
        self.id
    }

    /// Returns the referenced operation's instruction.
    pub fn get_instruction(&self) -> (r: &'ir D::InstructionSet)
        requires
            self.ir.has_op(self.id),
        ensures
            *r == self.ir.instr(self.id),
    {
        self.ir.get_instruction(self.id)
    }

    /// Returns the referenced operation's arguments.
    pub fn get_arg_valids(&self) -> (r: &'ir Vec<ValId>)
        requires
            self.ir.has_op(self.id),
        ensures
            r@ == self.ir.args(self.id),
    {
        self.ir.get_arg_valids(self.id)
    }

    /// Returns the referenced operation's return values.
    pub fn get_return_valids(&self) -> (r: &'ir Vec<ValId>)
        requires
            self.ir.has_op(self.id),
        ensures
            r@ == self.ir.rets(self.id),
    {
        self.ir.get_return_valids(self.id)
    }

    /// Returns the number of values the referenced operation defines.
    pub fn get_return_arity(&self) -> (r: usize)
        requires
            self.ir.has_op(self.id),
        ensures
            r == self.ir.rets(self.id).len(),
    {
        self.ir.get_return_valids(self.id).len()
    }
}

/// Types that refer to an operation of an IR.
pub trait AsOpRef {
    /// The dialect of the IR.
    type Dialect: Dialect;

    /// The IR holding the referenced operation.
    spec fn spec_ir(&self) -> IR<Self::Dialect>;

    /// The referenced operation.
    spec fn spec_op(&self) -> OpId;

    /// Returns a plain reference to the operation.
    fn op_ref(&self) -> (r: OpRef<'_, Self::Dialect>)
        ensures
            *r.ir == self.spec_ir(),
            r.id == self.spec_op(),
    ;
}

impl<'ir, D: Dialect> AsOpRef for OpRef<'ir, D> {
    type Dialect = D;

    open spec fn spec_ir(&self) -> IR<D> {
        *self.ir
    }

    open spec fn spec_op(&self) -> OpId {
        self.id
    }

    fn op_ref(&self) -> (r: OpRef<'_, D>) {
        OpRef { ir: self.ir, id: self.id }
    }
}

impl<'ir, 'ann, D: Dialect, OpAnn, ValAnn> AsOpRef for AnnOpRef<'ir, 'ann, D, OpAnn, ValAnn> {
    type Dialect = D;

    open spec fn spec_ir(&self) -> IR<D> {
        *self.opref.ir
    }

    open spec fn spec_op(&self) -> OpId {
        self.opref.id
    }

    fn op_ref(&self) -> (r: OpRef<'_, D>) {
        OpRef { ir: self.opref.ir, id: self.opref.id }
    }
}

/// Reference to one value of an IR.
pub struct ValRef<'ir, D: Dialect> {
    /// The IR holding the value.
    pub ir: &'ir IR<D>,
    /// The value.
    pub id: ValId,
}

/// A read-only, annotated view over an [`IR`], pairing operations and values with associated
/// data.
pub struct AnnIRView<'ir, 'ann, D: Dialect, OpAnn, ValAnn> {
    pub(crate) ir: &'ir IR<D>,
    pub(crate) op_annotations: &'ann OpMap<OpAnn>,
    pub(crate) val_annotations: &'ann ValMap<ValAnn>,
}

/// An operation of an annotated view, with its annotation.
pub struct AnnOpRef<'ir, 'ann, D: Dialect, OpAnn, ValAnn> {
    /// The view the operation belongs to.
    pub ir: AnnIRView<'ir, 'ann, D, OpAnn, ValAnn>,
    /// The operation.
    pub opref: OpRef<'ir, D>,
    /// Its annotation.
    pub ann: &'ann OpAnn,
}

/// A value of an annotated view, with its annotation.
pub struct AnnValRef<'ir, 'ann, D: Dialect, OpAnn, ValAnn> {
    /// The view the value belongs to.
    pub ir: AnnIRView<'ir, 'ann, D, OpAnn, ValAnn>,
    /// The value.
    pub valref: ValRef<'ir, D>,
    /// Its annotation.
    pub ann: &'ann ValAnn,
}

impl<'ir, 'ann, D: Dialect, OpAnn, ValAnn> AnnOpRef<'ir, 'ann, D, OpAnn, ValAnn> {
    /// Returns the operation's identifier.
    pub fn get_id(&self) -> (r: OpId)
        ensures
            r == self.opref.id,
    {
        self.opref.id
    }

    /// Returns the operation's annotation.
    pub fn get_annotation(&self) -> (r: &'ann OpAnn)
        ensures
            *r == *self.ann,
    {
        self.ann
    }
}

impl<'ir, 'ann, D: Dialect, OpAnn, ValAnn> AnnValRef<'ir, 'ann, D, OpAnn, ValAnn> {
    /// Returns the value's identifier.
    pub fn get_id(&self) -> (r: ValId)
        ensures
            r == self.valref.id,
    {
        self.valref.id
    }

    /// Returns the value's annotation.
    pub fn get_annotation(&self) -> (r: &'ann ValAnn)
        ensures
            *r == *self.ann,
    {
        self.ann
    }
}

impl<'ir, 'ann, D: Dialect, OpAnn, ValAnn> AnnIRView<'ir, 'ann, D, OpAnn, ValAnn> {
    /// The viewed IR.
    pub closed spec fn view_ir(&self) -> IR<D> {
        *self.ir
    }

    /// The operation annotations.
    pub closed spec fn view_op_anns(&self) -> OpMap<OpAnn> {
        *self.op_annotations
    }

    /// The value annotations.
    pub closed spec fn view_val_anns(&self) -> ValMap<ValAnn> {
        *self.val_annotations
    }

    /// The view is over a well-formed IR and every one of its operations and values has an
    /// annotation.
    pub open spec fn wf(&self) -> bool {
        &&& self.view_ir().wf()
        &&& self.view_op_anns().spec_is_filled()
        &&& self.view_val_anns().spec_is_filled()
        &&& self.view_op_anns().spec_len() >= self.view_ir().spec_n_ops()
        &&& self.view_val_anns().spec_len() >= self.view_ir().spec_n_vals()
    }

    /// The annotation of `op`.
    pub open spec fn op_ann(&self, op: OpId) -> OpAnn {
        self.view_op_anns().spec_get(op)->0
    }

    /// The annotation of `v`.
    pub open spec fn val_ann(&self, v: ValId) -> ValAnn {
        self.view_val_anns().spec_get(v)->0
    }

    /// Whether `r` is the annotated reference to `op` in this view.
    pub open spec fn is_op_ref(&self, r: AnnOpRef<'ir, 'ann, D, OpAnn, ValAnn>, op: OpId) -> bool {
        &&& r.ir == *self
        &&& r.opref.id == op
        &&& r.opref.ir == self.view_ir()
        &&& *r.ann == self.op_ann(op)
    }

    /// Whether `r` is the annotated reference to `v` in this view.
    pub open spec fn is_val_ref(&self, r: AnnValRef<'ir, 'ann, D, OpAnn, ValAnn>, v: ValId) -> bool {
        &&& r.ir == *self
        &&& r.valref.id == v
        &&& r.valref.ir == self.view_ir()
        &&& *r.ann == self.val_ann(v)
    }

    /// Creates a view combining the IR with its operation and value annotations.
    ///
    /// Both maps must hold an annotation in every slot, and cover every operation and value of
    /// `ir`.
    pub fn new(
        ir: &'ir IR<D>,
        op_annotations: &'ann OpMap<OpAnn>,
        val_annotations: &'ann ValMap<ValAnn>,
    ) -> (r: Self)
        requires
            ir.wf(),
            op_annotations.spec_is_filled(),
            val_annotations.spec_is_filled(),
            op_annotations.spec_len() >= ir.spec_n_ops(),
            val_annotations.spec_len() >= ir.spec_n_vals(),
        ensures
            r.wf(),
            r.view_ir() == *ir,
            r.view_op_anns() == *op_annotations,
            r.view_val_anns() == *val_annotations,
    {
        AnnIRView { ir, op_annotations, val_annotations }
    }

    /// Returns a copy of this view.
    pub fn duplicate(&self) -> (r: Self)
        ensures
            r == *self,
    {
        AnnIRView {
            ir: self.ir,
            op_annotations: self.op_annotations,
            val_annotations: self.val_annotations,
        }
    }

    /// Returns the viewed IR.
    pub fn get_ir(&self) -> (r: &'ir IR<D>)
        ensures
            *r == self.view_ir(),
    {
        self.ir
    }

    /// Returns a reference to the operation annotations map.
    pub fn op_annotations(&self) -> (r: &'ann OpMap<OpAnn>)
        ensures
            *r == self.view_op_anns(),
    {
        self.op_annotations
    }

    /// Returns a reference to the value annotations map.
    pub fn val_annotations(&self) -> (r: &'ann ValMap<ValAnn>)
        ensures
            *r == self.view_val_anns(),
    {
        self.val_annotations
    }

    /// Returns an annotated operation reference for the specified operation.
    pub fn get_op<A: AsOpId>(&self, opid: A) -> (r: AnnOpRef<'ir, 'ann, D, OpAnn, ValAnn>)
        requires
            self.wf(),
            self.view_ir().has_op(opid.spec_op_id()),
        ensures
            self.is_op_ref(r, opid.spec_op_id()),
    {
        let opid = opid.op_id();
        self.op_ref(opid)
    }

    fn op_ref(&self, opid: OpId) -> (r: AnnOpRef<'ir, 'ann, D, OpAnn, ValAnn>)
        requires
            self.wf(),
            self.view_ir().has_op(opid),
        ensures
            self.is_op_ref(r, opid),
    {
        let ann = match self.op_annotations.get(opid) {
            Some(a) => a,
            None => {
                proof {
                    assert(self.view_op_anns().slots()[opid.0 as int] is Some);
                }
                unreached()
            },
        };
        AnnOpRef { ir: self.duplicate(), opref: OpRef { ir: self.ir, id: opid }, ann }
    }

    fn val_ref(&self, valid: ValId) -> (r: AnnValRef<'ir, 'ann, D, OpAnn, ValAnn>)
        requires
            self.wf(),
            self.view_ir().has_val(valid),
        ensures
            self.is_val_ref(r, valid),
    {
        let ann = match self.val_annotations.get(valid) {
            Some(a) => a,
            None => {
                proof {
                    assert(self.view_val_anns().slots()[valid.0 as int] is Some);
                }
                unreached()
            },
        };
        AnnValRef { ir: self.duplicate(), valref: ValRef { ir: self.ir, id: valid }, ann }
    }

    /// Returns an annotated value reference for the specified value.
    pub fn get_val<A: AsValId>(&self, valid: A) -> (r: AnnValRef<'ir, 'ann, D, OpAnn, ValAnn>)
        requires
            self.wf(),
            self.view_ir().has_val(valid.spec_val_id()),
        ensures
            self.is_val_ref(r, valid.spec_val_id()),
    {
        let valid = valid.val_id();
        self.val_ref(valid)
    }

    /// Returns the annotated operations listed by `walker`, in that order.
    pub fn walk_ops_with(&self, walker: Vec<OpId>) -> (r: Vec<AnnOpRef<'ir, 'ann, D, OpAnn, ValAnn>>)
        requires
            self.wf(),
            forall|i: int| 0 <= i < walker@.len() ==> self.view_ir().has_op(#[trigger] walker@[i]),
        ensures
            r@.len() == walker@.len(),
            forall|i: int| 0 <= i < r@.len() ==> self.is_op_ref(#[trigger] r@[i], walker@[i]),
    {
        let mut r: Vec<AnnOpRef<'ir, 'ann, D, OpAnn, ValAnn>> = Vec::new();
        let mut k: usize = 0;
        while k < walker.len()
            invariant
                self.wf(),
                forall|i: int| 0 <= i < walker@.len() ==> self.view_ir().has_op(#[trigger] walker@[i]),
                k <= walker@.len(),
                r@.len() == k,
                forall|i: int| 0 <= i < k ==> self.is_op_ref(#[trigger] r@[i], walker@[i]),
            decreases walker@.len() - k,
        {
            let o = self.op_ref(walker[k]);
            r.push(o);
            k = k + 1;
        }
        r
    }

    /// Returns every annotated operation in insertion order.
    pub fn walk_ops_linear(&self) -> (r: Vec<AnnOpRef<'ir, 'ann, D, OpAnn, ValAnn>>)
        requires
            self.wf(),
        ensures
            r@.len() == self.view_ir().spec_n_ops(),
            forall|i: int| 0 <= i < r@.len() ==> self.is_op_ref(#[trigger] r@[i], OpId(i as u32)),
    {
        let order = self.ir.walk_ops_linear();
        self.walk_ops_with(order)
    }

    /// Returns every annotated operation in topological order, the order of the IR's own
    /// topological walk: each operation comes after the operations defining its arguments.
    pub fn walk_ops_topological(&self) -> (r: Vec<AnnOpRef<'ir, 'ann, D, OpAnn, ValAnn>>)
        requires
            self.wf(),
        ensures
            r@.len() == self.view_ir().spec_n_ops(),
            self.view_ir().is_topological(r@.map_values(|o: AnnOpRef<'ir, 'ann, D, OpAnn, ValAnn>| o.opref.id)),
            forall|i: int| 0 <= i < r@.len() ==> self.is_op_ref(#[trigger] r@[i], OpId(i as u32)),
    {
        let order = self.ir.walk_ops_topological();
        let r = self.walk_ops_with(order);
        proof {
            assert(r@.map_values(|o: AnnOpRef<'ir, 'ann, D, OpAnn, ValAnn>| o.opref.id) =~= order@);
        }
        r
    }

    /// Returns the annotated values listed by `walker`, in that order.
    pub fn walk_vals_with(&self, walker: Vec<ValId>) -> (r: Vec<AnnValRef<'ir, 'ann, D, OpAnn, ValAnn>>)
        requires
            self.wf(),
            forall|i: int| 0 <= i < walker@.len() ==> self.view_ir().has_val(#[trigger] walker@[i]),
        ensures
            r@.len() == walker@.len(),
            forall|i: int| 0 <= i < r@.len() ==> self.is_val_ref(#[trigger] r@[i], walker@[i]),
    {
        let mut r: Vec<AnnValRef<'ir, 'ann, D, OpAnn, ValAnn>> = Vec::new();
        let mut k: usize = 0;
        while k < walker.len()
            invariant
                self.wf(),
                forall|i: int| 0 <= i < walker@.len() ==> self.view_ir().has_val(#[trigger] walker@[i]),
                k <= walker@.len(),
                r@.len() == k,
                forall|i: int| 0 <= i < k ==> self.is_val_ref(#[trigger] r@[i], walker@[i]),
            decreases walker@.len() - k,
        {
            let v = self.val_ref(walker[k]);
            r.push(v);
            k = k + 1;
        }
        r
    }

    /// Returns every annotated value in creation order.
    pub fn walk_vals_linear(&self) -> (r: Vec<AnnValRef<'ir, 'ann, D, OpAnn, ValAnn>>)
        requires
            self.wf(),
        ensures
            r@.len() == self.view_ir().spec_n_vals(),
            forall|i: int| 0 <= i < r@.len() ==> self.is_val_ref(#[trigger] r@[i], ValId(i as u32)),
    {
        let order = self.ir.walk_vals_linear();
        self.walk_vals_with(order)
    }
}

/// An IR together with annotation maps it owns.
pub struct AnnIR<'ir, D: Dialect, OpAnn, ValAnn> {
    /// The annotated IR.
    pub ir: &'ir IR<D>,
    /// One annotation per operation.
    pub op_annotations: OpMap<OpAnn>,
    /// One annotation per value.
    pub val_annotations: ValMap<ValAnn>,
}

impl<'ir, D: Dialect, OpAnn, ValAnn> AnnIR<'ir, D, OpAnn, ValAnn> {
    /// The IR is well formed and every operation and value has an annotation.
    pub open spec fn wf(&self) -> bool {
        &&& self.ir.wf()
        &&& self.op_annotations.spec_is_filled()
        &&& self.val_annotations.spec_is_filled()
        &&& self.op_annotations.spec_len() >= self.ir.spec_n_ops()
        &&& self.val_annotations.spec_len() >= self.ir.spec_n_vals()
    }

    /// Pairs an IR with its annotation maps.
    pub fn new(ir: &'ir IR<D>, op_annotations: OpMap<OpAnn>, val_annotations: ValMap<ValAnn>) -> (r: Self)
        ensures
            r.ir == ir,
            r.op_annotations == op_annotations,
            r.val_annotations == val_annotations,
    {
        AnnIR { ir, op_annotations, val_annotations }
    }

    /// Returns a view borrowing the annotations.
    pub fn as_view(&self) -> (r: AnnIRView<'ir, '_, D, OpAnn, ValAnn>)
        requires
            self.wf(),
        ensures
            r.wf(),
            r.view_ir() == *self.ir,
            r.view_op_anns() == self.op_annotations,
            r.view_val_anns() == self.val_annotations,
    {
        AnnIRView::new(self.ir, &self.op_annotations, &self.val_annotations)
    }
}

} // verus!
