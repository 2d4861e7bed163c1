//! Layout dialect: an IR describing what to draw rather than what to compute.
//!
//! Operations of the drawn IR become display nodes carrying their pre-formatted text, and
//! hierarchy branches become `Group` nodes holding a nested layout IR, with explicit boundary
//! nodes where values cross into or out of a group. Every edge carries the single `Value` type,
//! since only the shape of the dataflow matters for drawing.
use vstd::prelude::*;
use crate::idmap::OpMap;
use crate::ids::{OpId, ValId};
use crate::ir::{Dialect, DialectInstructionSet, IR, Operation, Signature};
use crate::locality::LayoutTypeSystem;

verus! {

/// Renderable content of an `Operation` node: the pre-formatted strings to display for one
/// drawn operation.
pub struct OpContent {
    /// Formatted argument values, one string per input edge.
    pub args: Vec<String>,
    /// Formatted return values, one string per output edge.
    pub returns: Vec<String>,
    /// Formatted operation call, without types or comments.
    pub call: String,
    /// Optional comment line displayed alongside the node.
    pub comment: Option<String>,
    /// Optional visual annotation of the node, as the text it is drawn with; attached by
    /// [`annotate_layout`].
    pub annotation: Option<String>,
    /// Optional visual annotations of the input edges, one per argument.
    pub arg_annotations: Vec<Option<String>>,
    /// Optional visual annotations of the output edges, one per return.
    pub return_annotations: Vec<Option<String>>,
}

/// Instruction set for the layout dialect.
///
/// `Operation` is a plain display node standing for one operation of the drawn IR, with one
/// input per formatted argument and one output per formatted return. `Group` holds the
/// operations of a whole nested layout IR, in insertion order, to draw as a named box, with one
/// input per `GroupInput` and one output per `GroupOutput` operation among them; `GroupInput` (no input, one output) and `GroupOutput`
/// (one input, no output) mark inside the nested IR where the group's `pos`-th argument enters
/// and its `pos`-th result leaves. `Dummy` forwards a value unchanged, padding an edge so that it
/// spans one rendering layer at a time.
pub enum LayoutInstructionSet {
    Operation { opid: OpId, op: OpContent, args: Vec<ValId>, returns: Vec<ValId> },
    Dummy { valid: ValId },
    Group { body: Vec<Operation<LayoutInstructionSet>>, name: String },
    GroupInput { pos: u16, valid: ValId },
    GroupOutput { pos: u16, valid: ValId },
}

/// Dialect tag binding the layout type system and instruction set.
pub struct LayoutDialect;

impl Dialect for LayoutDialect {
    type InstructionSet = LayoutInstructionSet;
}

/// `n` copies of the `Value` type.
pub open spec fn values(n: nat) -> Seq<LayoutTypeSystem> {
    Seq::new(n, |i: int| LayoutTypeSystem::Value)
}

/// Number of `GroupInput` operations among `ops`.
pub open spec fn count_group_inputs(ops: Seq<Operation<LayoutInstructionSet>>) -> nat {
    ops.filter(|o: Operation<LayoutInstructionSet>| o.instruction is GroupInput).len()
}

/// Number of `GroupOutput` operations among `ops`.
pub open spec fn count_group_outputs(ops: Seq<Operation<LayoutInstructionSet>>) -> nat {
    ops.filter(|o: Operation<LayoutInstructionSet>| o.instruction is GroupOutput).len()
}

fn value_types(n: usize) -> (r: Vec<LayoutTypeSystem>)
    ensures
        r@ == values(n as nat),
{
    let mut r: Vec<LayoutTypeSystem> = Vec::new();
    let mut k: usize = 0;
    while k < n
        invariant
            k <= n,
            r@ == values(k as nat),
        decreases n - k,
    {
        r.push(LayoutTypeSystem::Value);
        k = k + 1;
        assert(r@ =~= values(k as nat));
    }
    r
}

/// Counts the `GroupInput` (when `inputs`) or `GroupOutput` operations of `body`.
fn count_boundaries(body: &Vec<Operation<LayoutInstructionSet>>, inputs: bool) -> (r: usize)
    ensures
        r == (if inputs { count_group_inputs(body@) } else { count_group_outputs(body@) }),
{
    let n = body.len();
    let ghost ops = body@;
    let mut count: usize = 0;
    let mut k: usize = 0;
    while k < n
        invariant
            n == ops.len(),
            ops == body@,
            k <= n,
            count <= k,
            count == (if inputs { count_group_inputs(ops.take(k as int)) } else { count_group_outputs(ops.take(k as int)) }),
        decreases n - k,
    {
        proof {
            reveal_with_fuel(Seq::<_>::filter, 1);
            assert(ops.take(k as int + 1).drop_last() =~= ops.take(k as int));
        }
        let hit = match &body[k].instruction {
            LayoutInstructionSet::GroupInput { .. } => inputs,
            LayoutInstructionSet::GroupOutput { .. } => !inputs,
            _ => false,
        };
        if hit {
            count = count + 1;
        }
        k = k + 1;
    }
    assert(ops.take(k as int) =~= ops);
    count
}

impl DialectInstructionSet for LayoutInstructionSet {
    type TypeSystem = LayoutTypeSystem;

    open spec fn spec_arg_types(&self) -> Seq<LayoutTypeSystem> {
        match self {
            LayoutInstructionSet::Operation { op, .. } => values(op.args@.len()),
            LayoutInstructionSet::Dummy { .. } => values(1),
            LayoutInstructionSet::Group { body, .. } => values(count_group_inputs(body@)),
            LayoutInstructionSet::GroupInput { .. } => values(0),
            LayoutInstructionSet::GroupOutput { .. } => values(1),
        }
    }

    open spec fn spec_return_types(&self) -> Seq<LayoutTypeSystem> {
        match self {
            LayoutInstructionSet::Operation { op, .. } => values(op.returns@.len()),
            LayoutInstructionSet::Dummy { .. } => values(1),
            LayoutInstructionSet::Group { body, .. } => values(count_group_outputs(body@)),
            LayoutInstructionSet::GroupInput { .. } => values(1),
            LayoutInstructionSet::GroupOutput { .. } => values(0),
        }
    }

    fn get_signature(&self) -> (r: Signature<LayoutTypeSystem>) {
        match self {
            LayoutInstructionSet::Operation { op, .. } => Signature(value_types(op.args.len()), value_types(op.returns.len())),
            LayoutInstructionSet::Dummy { .. } => Signature(value_types(1), value_types(1)),
            LayoutInstructionSet::Group { body, .. } => {
                let n_inputs = count_boundaries(body, true);
                let n_outputs = count_boundaries(body, false);
                Signature(value_types(n_inputs), value_types(n_outputs))
            },
            LayoutInstructionSet::GroupInput { .. } => Signature(value_types(0), value_types(1)),
            LayoutInstructionSet::GroupOutput { .. } => Signature(value_types(1), value_types(0)),
        }
    }
}

/// `next` is `op` with its node annotation set to `annotation`, everything else unchanged.
pub open spec fn annotated_content(op: OpContent, next: OpContent, annotation: Option<String>) -> bool {
    &&& next.args@ == op.args@
    &&& next.returns@ == op.returns@
    &&& next.call == op.call
    &&& next.comment == op.comment
    &&& next.arg_annotations@ == op.arg_annotations@
    &&& next.return_annotations@ == op.return_annotations@
    &&& next.annotation == annotation
}

/// Whether `annotations` holds an annotation for the original operation of every display node
/// of `instr`, nested groups included.
pub open spec fn covers(instr: LayoutInstructionSet, annotations: OpMap<String>) -> bool
    decreases instr,
{
    match instr {
        LayoutInstructionSet::Operation { opid, .. } => annotations.spec_get(opid) is Some,
        LayoutInstructionSet::Group { body, .. } => forall|i: int|
            0 <= i < body@.len() ==> covers(#[trigger] body@[i].instruction, annotations),
        _ => true,
    }
}

/// `after` is `before` with every display node, nested groups included, annotated with the
/// entry of `annotations` for its original operation; nothing else differs.
pub open spec fn annotates(before: LayoutInstructionSet, after: LayoutInstructionSet, annotations: OpMap<String>) -> bool
    decreases before,
{
    match before {
        LayoutInstructionSet::Operation { opid, op, args, returns: rets } => {
            &&& after matches LayoutInstructionSet::Operation { opid: o2, op: c2, args: a2, returns: r2 }
            &&& o2 == opid
            &&& a2@ == args@
            &&& r2@ == rets@
            &&& annotated_content(op, c2, annotations.spec_get(opid))
        },
        LayoutInstructionSet::Group { body, name } => {
            &&& after matches LayoutInstructionSet::Group { body: b2, name: n2 }
            &&& n2 == name
            &&& b2@.len() == body@.len()
            &&& forall|i: int| 0 <= i < body@.len() ==> {
                &&& b2@[i].args@ == (#[trigger] body@[i]).args@
                &&& b2@[i].returns@ == body@[i].returns@
                &&& annotates(body@[i].instruction, b2@[i].instruction, annotations)
            }
        },
        _ => after == before,
    }
}

fn copy_strings(v: &Vec<String>) -> (r: Vec<String>)
    ensures
        r@ == v@,
{
    let mut r: Vec<String> = Vec::new();
    let mut k: usize = 0;
    while k < v.len()
        invariant
            k <= v@.len(),
            r@ == v@.take(k as int),
        decreases v@.len() - k,
    {
        r.push(v[k].clone());
        k = k + 1;
        assert(r@ =~= v@.take(k as int));
    }
    assert(v@.take(k as int) =~= v@);
    r
}

fn copy_text(o: &Option<String>) -> (r: Option<String>)
    ensures
        r == *o,
{
    match o {
        Some(t) => Some(t.clone()),
        None => None,
    }
}

fn copy_texts(v: &Vec<Option<String>>) -> (r: Vec<Option<String>>)
    ensures
        r@ == v@,
{
    let mut r: Vec<Option<String>> = Vec::new();
    let mut k: usize = 0;
    while k < v.len()
        invariant
            k <= v@.len(),
            r@ == v@.take(k as int),
        decreases v@.len() - k,
    {
        r.push(copy_text(&v[k]));
        k = k + 1;
        assert(r@ =~= v@.take(k as int));
    }
    assert(v@.take(k as int) =~= v@);
    r
}

fn copy_valids(v: &Vec<ValId>) -> (r: Vec<ValId>)
    ensures
        r@ == v@,
{
    let mut r: Vec<ValId> = Vec::new();
    let mut k: usize = 0;
    while k < v.len()
        invariant
            k <= v@.len(),
            r@ == v@.take(k as int),
        decreases v@.len() - k,
    {
        r.push(v[k]);
        k = k + 1;
        assert(r@ =~= v@.take(k as int));
    }
    assert(v@.take(k as int) =~= v@);
    r
}

/// Returns `instr` with every display node, nested groups included, annotated with the entry of
/// `annotations` for its original operation.
fn annotate_instruction(instr: &LayoutInstructionSet, annotations: &OpMap<String>) -> (r: LayoutInstructionSet)
    requires
        covers(*instr, *annotations),
    ensures
        annotates(*instr, r, *annotations),
    decreases *instr,
{
    match instr {
        LayoutInstructionSet::Operation { opid, op, args, returns: rets } => {
            let annotation = match annotations.get(*opid) {
                Some(a) => Some(a.clone()),
                None => {
                    proof {
                        assert(false);
                    }
                    None
                },
            };
            let content = OpContent {
                args: copy_strings(&op.args),
                returns: copy_strings(&op.returns),
                call: op.call.clone(),
                comment: copy_text(&op.comment),
                annotation,
                arg_annotations: copy_texts(&op.arg_annotations),
                return_annotations: copy_texts(&op.return_annotations),
            };
            LayoutInstructionSet::Operation { opid: *opid, op: content, args: copy_valids(args), returns: copy_valids(rets) }
        },
        LayoutInstructionSet::Dummy { valid } => LayoutInstructionSet::Dummy { valid: *valid },
        LayoutInstructionSet::GroupInput { pos, valid } => LayoutInstructionSet::GroupInput { pos: *pos, valid: *valid },
        LayoutInstructionSet::GroupOutput { pos, valid } => LayoutInstructionSet::GroupOutput { pos: *pos, valid: *valid },
        LayoutInstructionSet::Group { body, name } => {
            let mut out: Vec<Operation<LayoutInstructionSet>> = Vec::new();
            let mut k: usize = 0;
            while k < body.len()
                invariant
                    *instr == (LayoutInstructionSet::Group { body: *body, name: *name }),
                    k <= body@.len(),
                    out@.len() == k,
                    forall|i: int| 0 <= i < body@.len() ==> covers(#[trigger] body@[i].instruction, *annotations),
                    forall|i: int| 0 <= i < k ==> {
                        &&& out@[i].args@ == (#[trigger] body@[i]).args@
                        &&& out@[i].returns@ == body@[i].returns@
                        &&& annotates(body@[i].instruction, out@[i].instruction, *annotations)
                    },
                decreases body@.len() - k,
            {
                let node = &body[k];
                proof {
                    assert(decreases_to!(*instr => (*instr)->body));
                    assert((*instr)->body == *body);
                    assert(decreases_to!(*body => body@));
                    assert(decreases_to!(body@ => body@[k as int]));
                    assert(decreases_to!(body@[k as int] => body@[k as int].instruction));
                    assert(decreases_to!(*instr => node.instruction));
                }
                let annotated = annotate_instruction(&node.instruction, annotations);
                out.push(Operation { instruction: annotated, args: copy_valids(&node.args), returns: copy_valids(&node.returns) });
                k = k + 1;
            }
            LayoutInstructionSet::Group { body: out, name: name.clone() }
        },
    }
}

/// Annotating changes no signature.
proof fn lemma_annotates_signature(before: LayoutInstructionSet, after: LayoutInstructionSet, annotations: OpMap<String>)
    requires
        annotates(before, after, annotations),
    ensures
        after.spec_arg_types() == before.spec_arg_types(),
        after.spec_return_types() == before.spec_return_types(),
{
    if let LayoutInstructionSet::Group { body, .. } = before {
        if let LayoutInstructionSet::Group { body: b2, .. } = after {
            lemma_same_boundaries(body@, b2@, annotations);
        }
    }
}

/// Bodies whose nodes correspond one to one through annotation hold as many boundary nodes.
proof fn lemma_same_boundaries(a: Seq<Operation<LayoutInstructionSet>>, b: Seq<Operation<LayoutInstructionSet>>, annotations: OpMap<String>)
    requires
        a.len() == b.len(),
        forall|i: int| 0 <= i < a.len() ==> annotates(#[trigger] a[i].instruction, b[i].instruction, annotations),
    ensures
        count_group_inputs(b) == count_group_inputs(a),
        count_group_outputs(b) == count_group_outputs(a),
    decreases a.len(),
{
    reveal_with_fuel(Seq::<_>::filter, 1);
    if a.len() > 0 {
        let n = a.len() - 1;
        assert forall|i: int| 0 <= i < a.drop_last().len() implies annotates(#[trigger] a.drop_last()[i].instruction, b.drop_last()[i].instruction, annotations) by {
            assert(a.drop_last()[i] == a[i]);
            assert(annotates(a[i].instruction, b[i].instruction, annotations));
        }
        lemma_same_boundaries(a.drop_last(), b.drop_last(), annotations);
        assert(annotates(a[n].instruction, b[n].instruction, annotations));
        assert((a.last().instruction is GroupInput) == (b.last().instruction is GroupInput));
        assert((a.last().instruction is GroupOutput) == (b.last().instruction is GroupOutput));
    }
}

/// Attaches to every display node of `ir`, nested groups included, the annotation `annotations`
/// holds for its original operation; nothing else changes.
pub fn annotate_layout(ir: &mut IR<LayoutDialect>, annotations: &OpMap<String>)
    requires
        old(ir).wf(),
        forall|i: int| 0 <= i < old(ir).spec_n_ops() ==> covers(#[trigger] old(ir).instr(OpId(i as u32)), *annotations),
    ensures
        final(ir).wf(),
        final(ir).spec_n_ops() == old(ir).spec_n_ops(),
        final(ir).spec_vals() == old(ir).spec_vals(),
        forall|i: int| #![trigger final(ir).instr(OpId(i as u32))] 0 <= i < old(ir).spec_n_ops() ==> {
            &&& final(ir).args(OpId(i as u32)) == old(ir).args(OpId(i as u32))
            &&& final(ir).rets(OpId(i as u32)) == old(ir).rets(OpId(i as u32))
            &&& annotates(old(ir).instr(OpId(i as u32)), final(ir).instr(OpId(i as u32)), *annotations)
        },
{
    let ghost start = *ir;
    let n = ir.n_ops();
    let mut k: usize = 0;
    while k < n
        invariant
            ir.wf(),
            n == start.spec_n_ops(),
            ir.spec_n_ops() == n,
            ir.spec_vals() == start.spec_vals(),
            k <= n,
            forall|i: int| k <= i < n ==> #[trigger] ir.spec_ops()[i] == start.spec_ops()[i],
            forall|i: int| 0 <= i < n ==> covers(#[trigger] start.instr(OpId(i as u32)), *annotations),
            forall|i: int| #![trigger ir.instr(OpId(i as u32))] 0 <= i < k ==> {
                &&& ir.args(OpId(i as u32)) == start.args(OpId(i as u32))
                &&& ir.rets(OpId(i as u32)) == start.rets(OpId(i as u32))
                &&& annotates(start.instr(OpId(i as u32)), ir.instr(OpId(i as u32)), *annotations)
            },
        decreases n - k,
    {
        let op = OpId(k as u32);
        proof {
            assert(ir.spec_ops()[k as int] == start.spec_ops()[k as int]);
            assert(covers(start.instr(OpId(k as u32)), *annotations));
        }
        let annotated = annotate_instruction(ir.get_instruction(op), annotations);
        proof {
            lemma_annotates_signature(ir.instr(op), annotated, *annotations);
        }
        let ghost before = *ir;
        let _ = ir.replace_instruction(op, annotated);
        proof {
            assert forall|i: int| k + 1 <= i < n implies #[trigger] ir.spec_ops()[i] == start.spec_ops()[i] by {
                assert(ir.spec_ops()[i] == before.spec_ops()[i]);
            }
            assert forall|i: int| #![trigger ir.instr(OpId(i as u32))] 0 <= i < k + 1 implies {
                &&& ir.args(OpId(i as u32)) == start.args(OpId(i as u32))
                &&& ir.rets(OpId(i as u32)) == start.rets(OpId(i as u32))
                &&& annotates(start.instr(OpId(i as u32)), ir.instr(OpId(i as u32)), *annotations)
            } by {
                if i < k {
                    assert(ir.spec_ops()[i] == before.spec_ops()[i]);
                    assert(ir.instr(OpId(i as u32)) == before.instr(OpId(i as u32)));
                }
            }
        }
        k = k + 1;
    }
}

} // verus!
