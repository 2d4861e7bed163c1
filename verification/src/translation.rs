//! Driver-based IR-to-IR translation.
//!
//! The caller supplies an [`Order`] in which source operations are visited, and a driver that,
//! for each visited operation, emits output-dialect operations and registers value
//! correspondences through a [`Translator`].
use vstd::prelude::*;
use std::marker::PhantomData;
use crate::annotation::{AnnIRView, AnnOpRef, OpRef};
use crate::idmap::{OpMap, ValMap};
use crate::ids::{AsOpId, AsValId, OpId, ValId};
use crate::ir::{Dialect, DialectInstructionSet, IR};

verus! {

/// Order in which operations are visited during translation.
pub enum Order {
    /// Visit operations in insertion order.
    Linear,
    /// Visit operations in topological order (dependencies before dependents).
    Topological,
    /// Visit operations in a caller-specified order.
    Custom(Vec<OpId>),
}

/// The source-IR operation that a translated output operation originated from.
#[derive(Debug, Clone, Copy, PartialEq, Eq, Structural)]
pub struct Provenance(pub OpId);

/// Maps each operation of a translation's output IR back to its source operation.
pub struct ProvenanceMap(Vec<Provenance>);

impl ProvenanceMap {
    /// The source operation of every output operation, in output order.
    pub closed spec fn sources(&self) -> Seq<OpId> {
        self.0@.map_values(|p: Provenance| p.0)
    }

    /// Returns the provenance of output operation `index`.
    pub fn index<A: AsOpId>(&self, index: A) -> (r: &Provenance)
        requires
            index.spec_op_id().0 < self.sources().len(),
        ensures
            r.0 == self.sources()[index.spec_op_id().0 as int],
    {
        let i = index.op_id();
        &self.0[i.0 as usize]
    }

    /// Returns the number of output operations.
    pub fn len(&self) -> (r: usize)
        ensures
            r == self.sources().len(),
    {
        self.0.len()
    }

    /// Re-keys `opmap`, indexed by source operations, into a map indexed by output operations.
    ///
    /// Each output operation receives a clone of the entry `opmap` holds for its source
    /// operation, or an empty slot when `opmap` holds none.
    pub fn project_opmap<T: Clone>(&self, opmap: &OpMap<T>) -> (r: OpMap<T>)
        ensures
            r.spec_len() == self.sources().len(),
            forall|k: int| 0 <= k < self.sources().len() ==> match (#[trigger] r.slots()[k], opmap.spec_get(self.sources()[k])) {
                (Some(a), Some(b)) => cloned(b, a),
                (None, None) => true,
                _ => false,
            },
    {
        let mut store: Vec<Option<T>> = Vec::new();
        let mut k: usize = 0;
        while k < self.0.len()
            invariant
                k <= self.0@.len(),
                store@.len() == k,
                forall|i: int| 0 <= i < k ==> match (#[trigger] store@[i], opmap.spec_get(self.sources()[i])) {
                    (Some(a), Some(b)) => cloned(b, a),
                    (None, None) => true,
                    _ => false,
                },
            decreases self.0@.len() - k,
        {
            let from = self.0[k].0;
            proof {
                assert(self.sources()[k as int] == from);
            }
            match opmap.get(from) {
                Some(x) => {
                    let c = x.clone();
                    store.push(Some(c));
                },
                None => {
                    store.push(None);
                },
            }
            k = k + 1;
        }
        OpMap::from_slots(store)
    }
}

/// The result of translating an IR: the output IR together with its operation provenance.
pub struct Translation<OD: Dialect> {
    /// The translated output IR.
    pub output: IR<OD>,
    /// Maps each operation of `output` back to the source operation that gave rise to it.
    pub provenance_map: ProvenanceMap,
}

/// Mutable translation state handed to the driver.
pub struct Translator<ID: Dialect, OD: Dialect> {
    output: IR<OD>,
    valmap: ValMap<ValId>,
    provenance_map: ProvenanceMap,
    current: Option<OpId>,
    phantom: PhantomData<ID>,
}

impl<ID: Dialect, OD: Dialect> Translator<ID, OD> {
    /// The output IR built so far.
    pub closed spec fn spec_output(&self) -> IR<OD> {
        self.output
    }

    /// The registered value correspondences, indexed by source value.
    pub closed spec fn spec_valmap(&self) -> ValMap<ValId> {
        self.valmap
    }

    /// The source operation of every output operation emitted so far.
    pub closed spec fn spec_provenance(&self) -> Seq<OpId> {
        self.provenance_map.sources()
    }

    /// The source operation being translated.
    pub closed spec fn spec_current(&self) -> Option<OpId> {
        self.current
    }

    /// The output IR is well formed and has one provenance entry per operation.
    pub open spec fn wf(&self) -> bool {
        &&& self.spec_output().wf()
        &&& self.spec_provenance().len() == self.spec_output().spec_n_ops()
    }

    /// This state with `op` as the source operation being translated.
    pub closed spec fn entering(&self, op: OpId) -> Self {
        Translator { current: Some(op), ..*self }
    }

    /// Entering an operation changes nothing but the operation being translated.
    pub proof fn lemma_entering(&self, op: OpId)
        ensures
            self.entering(op).spec_output() == self.spec_output(),
            self.entering(op).spec_valmap() == self.spec_valmap(),
            self.entering(op).spec_provenance() == self.spec_provenance(),
            self.entering(op).spec_current() == Some(op),
    {
    }

    /// A fresh state for translating an IR of `n_vals` values: nothing emitted or registered, and
    /// no operation being translated.
    pub open spec fn is_initial(&self, n_vals: nat) -> bool {
        &&& self.spec_output().wf()
        &&& self.spec_output().spec_n_ops() == 0
        &&& self.spec_output().spec_n_vals() == 0
        &&& self.spec_provenance().len() == 0
        &&& self.spec_current() is None
        &&& self.spec_valmap().spec_len() == n_vals
        &&& forall|v: int| 0 <= v < n_vals ==> #[trigger] self.spec_valmap().slots()[v] is None
    }

    /// The translation registered for source value `v`, if any.
    pub open spec fn translation_of(&self, v: ValId) -> Option<ValId> {
        self.spec_valmap().spec_get(v)
    }

    /// `next` results from `self` by emitting operations for the current source operation and
    /// registering new correspondences: nothing emitted or registered before is lost.
    pub open spec fn extends(&self, next: &Self) -> bool {
        let out = self.spec_output();
        let nout = next.spec_output();
        &&& next.spec_current() == self.spec_current()
        &&& next.spec_valmap().spec_len() == self.spec_valmap().spec_len()
        &&& forall|v: ValId| #[trigger] self.translation_of(v) is Some ==> next.translation_of(v) == self.translation_of(v)
        &&& nout.spec_n_ops() >= out.spec_n_ops()
        &&& nout.spec_n_vals() >= out.spec_n_vals()
        &&& forall|i: int| 0 <= i < out.spec_n_ops() ==> #[trigger] nout.spec_ops()[i] == out.spec_ops()[i]
        &&& forall|v: int| 0 <= v < out.spec_n_vals() ==> #[trigger] nout.spec_vals()[v] == out.spec_vals()[v]
        &&& next.spec_provenance().len() >= self.spec_provenance().len()
        &&& forall|k: int| 0 <= k < self.spec_provenance().len() ==> #[trigger] next.spec_provenance()[k] == self.spec_provenance()[k]
        &&& forall|k: int| self.spec_provenance().len() <= k < next.spec_provenance().len() ==>
            Some(#[trigger] next.spec_provenance()[k]) == self.spec_current()
    }

    /// Extension is reflexive.
    pub proof fn lemma_extends_refl(&self)
        ensures
            self.extends(self),
    {
    }

    /// Extension is transitive.
    pub proof fn lemma_extends_trans(a: &Self, b: &Self, c: &Self)
        requires
            a.extends(b),
            b.extends(c),
        ensures
            a.extends(c),
    {
        assert forall|k: int| a.spec_provenance().len() <= k < c.spec_provenance().len() implies
            Some(#[trigger] c.spec_provenance()[k]) == a.spec_current() by {
            if k < b.spec_provenance().len() {
                assert(c.spec_provenance()[k] == b.spec_provenance()[k]);
            }
        }
        assert forall|i: int| 0 <= i < a.spec_output().spec_n_ops() implies
            #[trigger] c.spec_output().spec_ops()[i] == a.spec_output().spec_ops()[i] by {
            assert(b.spec_output().spec_ops()[i] == a.spec_output().spec_ops()[i]);
        }
        assert forall|v: int| 0 <= v < a.spec_output().spec_n_vals() implies
            #[trigger] c.spec_output().spec_vals()[v] == a.spec_output().spec_vals()[v] by {
            assert(b.spec_output().spec_vals()[v] == a.spec_output().spec_vals()[v]);
        }
        assert forall|k: int| 0 <= k < a.spec_provenance().len() implies
            #[trigger] c.spec_provenance()[k] == a.spec_provenance()[k] by {
            assert(b.spec_provenance()[k] == a.spec_provenance()[k]);
        }
        assert forall|v: ValId| #[trigger] a.translation_of(v) is Some implies c.translation_of(v) == a.translation_of(v) by {
            assert(b.translation_of(v) == a.translation_of(v));
        }
    }

    /// Returns the output value registered as the translation of `source`.
    pub fn translate_val<A: AsValId>(&self, source: A) -> (r: ValId)
        requires
            self.translation_of(source.spec_val_id()) is Some,
        ensures
            Some(r) == self.translation_of(source.spec_val_id()),
    {
        let source = source.val_id();
        match self.valmap.get(source) {
            Some(val) => *val,
            None => {
                proof {
                    assert(false);
                }
                unreached()
            },
        }
    }

    /// Returns whether a translation has been registered for `source`.
    pub fn has_translation<A: AsValId>(&self, source: A) -> (r: bool)
        ensures
            r == self.translation_of(source.spec_val_id()) is Some,
    {
        let source = source.val_id();
        self.valmap.contains_key(source)
    }

    /// Records that source value `source` translates to output value `target`.
    pub fn register_translation<A: AsValId, B: AsValId>(&mut self, source: A, target: B)
        requires
            old(self).wf(),
            source.spec_val_id().0 < old(self).spec_valmap().spec_len(),
            old(self).translation_of(source.spec_val_id()) is None,
        ensures
            final(self).wf(),
            old(self).extends(&*final(self)),
            final(self).spec_output() == old(self).spec_output(),
            final(self).spec_provenance() == old(self).spec_provenance(),
            final(self).translation_of(source.spec_val_id()) == Some(target.spec_val_id()),
            forall|v: ValId| v != source.spec_val_id() ==> #[trigger] final(self).translation_of(v) == old(self).translation_of(v),
    {
        let source = source.val_id();
        let target = target.val_id();
        let ghost prev = self.valmap;
        let _ = self.valmap.insert(source, target);
        proof {
            assert forall|v: ValId| v != source implies #[trigger] self.translation_of(v) == prev.spec_get(v) by {
                if v.0 < prev.spec_len() {
                    assert(self.spec_valmap().slots()[v.0 as int] == prev.slots()[v.0 as int]);
                }
            }
        }
    }

    /// Emits an operation in the output IR, attributed to the source operation being translated,
    /// and returns its fresh values.
    pub fn add_op(&mut self, instr: OD::InstructionSet, args: Vec<ValId>) -> (r: Vec<ValId>)
        requires
            old(self).wf(),
            old(self).spec_current() is Some,
            old(self).spec_output().accepts(instr, args@),
        ensures
            final(self).wf(),
            old(self).extends(&*final(self)),
            old(self).spec_output().added(&final(self).spec_output(), instr, args@),
            final(self).spec_provenance() == old(self).spec_provenance().push(old(self).spec_current()->0),
            r@ == final(self).spec_output().rets(OpId(old(self).spec_output().spec_n_ops() as u32)),
            forall|v: ValId| #[trigger] final(self).translation_of(v) == old(self).translation_of(v),
    {
        let ghost prev = *self;
        let (_, valids) = self.output.add_op(instr, args);
        let cur = match self.current {
            Some(c) => c,
            None => {
                proof {
                    assert(false);
                }
                unreached()
            },
        };
        self.provenance_map.0.push(Provenance(cur));
        proof {
            assert(self.spec_provenance() =~= prev.spec_provenance().push(cur));
        }
        valids
    }

    /// Performs a one-to-one translation of `op`: emits `instr` on the translations of the
    /// arguments of `op`, and registers each return value of `op` as translating to the
    /// corresponding fresh value.
    pub fn direct_translation<'a>(&mut self, op: &OpRef<'a, ID>, instr: OD::InstructionSet)
        requires
            old(self).wf(),
            old(self).spec_current() is Some,
            op.ir.wf(),
            op.ir.has_op(op.id),
            old(self).spec_valmap().spec_len() == op.ir.spec_n_vals(),
            forall|k: int| 0 <= k < op.ir.args(op.id).len() ==> (#[trigger] old(self).translation_of(op.ir.args(op.id)[k])) is Some,
            old(self).spec_output().accepts(
                instr,
                op.ir.args(op.id).map_values(|v: ValId| old(self).translation_of(v)->0),
            ),
            instr.spec_return_types().len() == op.ir.rets(op.id).len(),
            forall|j: int| 0 <= j < op.ir.rets(op.id).len() ==> (#[trigger] old(self).translation_of(op.ir.rets(op.id)[j])) is None,
        ensures
            final(self).wf(),
            old(self).extends(&*final(self)),
            old(self).spec_output().added(
                &final(self).spec_output(),
                instr,
                op.ir.args(op.id).map_values(|v: ValId| old(self).translation_of(v)->0),
            ),
            forall|j: int| 0 <= j < op.ir.rets(op.id).len() ==>
                #[trigger] final(self).translation_of(op.ir.rets(op.id)[j])
                    == Some(ValId((old(self).spec_output().spec_n_vals() + j) as u32)),
    {
        let ghost s0 = *self;
        let ghost translated = op.ir.args(op.id).map_values(|v: ValId| s0.translation_of(v)->0);
        let args = op.get_arg_valids();
        let mut new_args: Vec<ValId> = Vec::new();
        let mut k: usize = 0;
        while k < args.len()
            invariant
                *self == s0,
                args@ == op.ir.args(op.id),
                translated == op.ir.args(op.id).map_values(|v: ValId| s0.translation_of(v)->0),
                forall|i: int| 0 <= i < args@.len() ==> (#[trigger] s0.translation_of(args@[i])) is Some,
                k <= args@.len(),
                new_args@ == translated.take(k as int),
            decreases args@.len() - k,
        {
            let t = self.translate_val(args[k]);
            proof {
                assert(translated[k as int] == s0.translation_of(args@[k as int])->0);
                assert(translated[k as int] == t);
            }
            new_args.push(t);
            k = k + 1;
            assert(new_args@ =~= translated.take(k as int));
        }
        assert(new_args@ =~= translated);
        let new_rets = self.add_op(instr, new_args);
        let ghost s1 = *self;
        let old_rets = op.get_return_valids();
        proof {
            op.ir.lemma_op_wf(op.id);
        }
        let mut j: usize = 0;
        while j < new_rets.len()
            invariant
                s0.extends(&s1),
                s1.extends(&*self),
                self.wf(),
                s0.spec_output().added(&self.spec_output(), instr, translated),
                op.ir.wf(),
                op.ir.has_op(op.id),
                old_rets@ == op.ir.rets(op.id),
                new_rets@ == s1.spec_output().rets(OpId(s0.spec_output().spec_n_ops() as u32)),
                new_rets@.len() == old_rets@.len(),
                self.spec_output() == s1.spec_output(),
                self.spec_valmap().spec_len() == op.ir.spec_n_vals(),
                forall|i: int| 0 <= i < old_rets@.len() ==> {
                    &&& op.ir.has_val(#[trigger] old_rets@[i])
                    &&& op.ir.position(old_rets@[i]) == i
                },
                forall|i: int| j <= i < old_rets@.len() ==> (#[trigger] self.translation_of(old_rets@[i])) is None,
                forall|i: int| 0 <= i < j ==> #[trigger] self.translation_of(old_rets@[i])
                    == Some(ValId((s0.spec_output().spec_n_vals() + i) as u32)),
                j <= new_rets@.len(),
            decreases new_rets@.len() - j,
        {
            let ghost before = *self;
            proof {
            }
            self.register_translation(old_rets[j], new_rets[j]);
            proof {
                Self::lemma_extends_trans(&s1, &before, &*self);
                assert forall|i: int| j + 1 <= i < old_rets@.len() implies (#[trigger] self.translation_of(old_rets@[i])) is None by {
                    assert(op.ir.position(old_rets@[i]) == i);
                    assert(old_rets@[i] != old_rets@[j as int]);
                }
                assert forall|i: int| 0 <= i < j + 1 implies #[trigger] self.translation_of(old_rets@[i])
                    == Some(ValId((s0.spec_output().spec_n_vals() + i) as u32)) by {
                    if i < j {
                        assert(op.ir.position(old_rets@[i]) == i);
                        assert(op.ir.position(old_rets@[j as int]) == j);
                        assert(old_rets@[i] != old_rets@[j as int]);
                    }
                }
            }
            j = j + 1;
        }
        proof {
            Self::lemma_extends_trans(&s0, &s1, &*self);
        }
    }

    fn into_translation(self) -> (r: Translation<OD>)
        ensures
            r.output == self.spec_output(),
            r.provenance_map.sources() == self.spec_provenance(),
    {
        Translation { output: self.output, provenance_map: self.provenance_map }
    }
}

/// Emits, for one source operation, the output operations that translate it.
pub trait TranslationDriver<ID: Dialect, OD: Dialect> {
    /// Whether translating operation `op` of `ir` may turn the state `before` into `after`. A
    /// driver that does not refine it promises only that the state grows.
    open spec fn emits(&self, ir: IR<ID>, op: OpId, before: Translator<ID, OD>, after: Translator<ID, OD>) -> bool {
        true
    }

    /// Translates `op`: emits output operations and registers value correspondences.
    fn drive<'a>(&self, op: OpRef<'a, ID>, translator: &mut Translator<ID, OD>)
        requires
            old(translator).wf(),
            op.ir.wf(),
            op.ir.has_op(op.id),
            old(translator).spec_current() == Some(op.id),
            old(translator).spec_valmap().spec_len() == op.ir.spec_n_vals(),
        ensures
            final(translator).wf(),
            old(translator).extends(&*final(translator)),
            self.emits(*op.ir, op.id, *old(translator), *final(translator)),
    ;
}

/// Emits, for one annotated source operation, the output operations that translate it.
pub trait AnnTranslationDriver<ID: Dialect, OpAnn, ValAnn, OD: Dialect> {
    /// Whether translating operation `op` of `ir`, annotated by `op_anns` and `val_anns`, may
    /// turn the state `before` into `after`. A driver that does not refine it promises only that
    /// the state grows.
    open spec fn emits(
        &self,
        ir: IR<ID>,
        op_anns: OpMap<OpAnn>,
        val_anns: ValMap<ValAnn>,
        op: OpId,
        before: Translator<ID, OD>,
        after: Translator<ID, OD>,
    ) -> bool {
        true
    }

    /// Translates `op`: emits output operations and registers value correspondences.
    fn drive<'a, 'b>(&self, op: AnnOpRef<'a, 'b, ID, OpAnn, ValAnn>, translator: &mut Translator<ID, OD>)
        requires
            old(translator).wf(),
            op.ir.wf(),
            op.ir.view_ir().has_op(op.opref.id),
            op.ir.is_op_ref(op, op.opref.id),
            old(translator).spec_current() == Some(op.opref.id),
            old(translator).spec_valmap().spec_len() == op.ir.view_ir().spec_n_vals(),
        ensures
            final(translator).wf(),
            old(translator).extends(&*final(translator)),
            self.emits(
                op.ir.view_ir(),
                op.ir.view_op_anns(),
                op.ir.view_val_anns(),
                op.opref.id,
                *old(translator),
                *final(translator),
            ),
    ;
}

/// The states of a translation that visited `visit` over an IR of `n_vals` values, one before
/// each visit and one at the end, and its result `r`: the first state is fresh, each visit
/// enters its operation and only grows the state, and `r` holds the output and the provenance
/// of the last state.
pub open spec fn run_frame<ID: Dialect, OD: Dialect>(
    visit: Seq<OpId>,
    n_vals: nat,
    states: Seq<Translator<ID, OD>>,
    r: Translation<OD>,
) -> bool {
    &&& states.len() == visit.len() + 1
    &&& states[0].is_initial(n_vals)
    &&& forall|k: int| 0 <= k < visit.len() ==> #[trigger] states[k].entering(visit[k]).extends(&states[k + 1])
    &&& r.output == states.last().spec_output()
    &&& r.provenance_map.sources() == states.last().spec_provenance()
}

/// Each step of `states` is a call of `driver` on the visited operation of `ir`.
pub open spec fn driven<ID: Dialect, OD: Dialect, F: TranslationDriver<ID, OD>>(
    driver: &F,
    ir: IR<ID>,
    visit: Seq<OpId>,
    states: Seq<Translator<ID, OD>>,
) -> bool {
    forall|k: int| 0 <= k < visit.len() ==> driver.emits(ir, visit[k], #[trigger] states[k].entering(visit[k]), states[k + 1])
}

/// Each step of `states` is a call of `driver` on the visited operation of the annotated IR.
pub open spec fn ann_driven<ID: Dialect, OpAnn, ValAnn, OD: Dialect, F: AnnTranslationDriver<ID, OpAnn, ValAnn, OD>>(
    driver: &F,
    ir: IR<ID>,
    op_anns: OpMap<OpAnn>,
    val_anns: ValMap<ValAnn>,
    visit: Seq<OpId>,
    states: Seq<Translator<ID, OD>>,
) -> bool {
    forall|k: int| 0 <= k < visit.len() ==> driver.emits(ir, op_anns, val_anns, visit[k], #[trigger] states[k].entering(visit[k]), states[k + 1])
}

/// A fresh translation state holds no translation.
pub proof fn lemma_initial_translates_nothing<ID: Dialect, OD: Dialect>(t: Translator<ID, OD>, n_vals: nat, v: ValId)
    requires
        t.is_initial(n_vals),
    ensures
        t.translation_of(v) is None,
{
    if v.0 < n_vals {
        assert(t.spec_valmap().slots()[v.0 as int] is None);
    }
}

/// Along a translation run, a translation once registered stays as it was registered: the
/// state before visit `i` translates `v` as the state before visit `j` did, for `j <= i`.
pub proof fn lemma_run_keeps_translations<ID: Dialect, OD: Dialect>(
    visit: Seq<OpId>,
    n_vals: nat,
    states: Seq<Translator<ID, OD>>,
    r: Translation<OD>,
    j: int,
    i: int,
    v: ValId,
)
    requires
        run_frame(visit, n_vals, states, r),
        0 <= j <= i < states.len(),
        states[j].translation_of(v) is Some,
    ensures
        states[i].translation_of(v) == states[j].translation_of(v),
    decreases i - j,
{
    if j < i {
        let k = i - 1;
        lemma_run_keeps_translations(visit, n_vals, states, r, j, k, v);
        states[k].lemma_entering(visit[k]);
        assert(states[k].entering(visit[k]).extends(&states[k + 1]));
        assert(states[k].entering(visit[k]).translation_of(v) == states[k].translation_of(v));
    }
}

/// Along a translation run, the state before visit `i` translates `v` exactly when an earlier
/// visit `j` registered a translation for it, and then it translates `v` as that visit left it.
pub proof fn lemma_run_registrations<ID: Dialect, OD: Dialect>(
    visit: Seq<OpId>,
    n_vals: nat,
    states: Seq<Translator<ID, OD>>,
    r: Translation<OD>,
    i: int,
    v: ValId,
)
    requires
        run_frame(visit, n_vals, states, r),
        0 <= i < states.len(),
    ensures
        states[i].translation_of(v) is Some <==> exists|j: int| {
            &&& 0 <= j < i
            &&& states[j].translation_of(v) is None
            &&& #[trigger] states[j + 1].translation_of(v) is Some
        },
        forall|j: int| 0 <= j < i && #[trigger] states[j + 1].translation_of(v) is Some ==>
            states[i].translation_of(v) == states[j + 1].translation_of(v),
    decreases i,
{
    assert forall|j: int| 0 <= j < i && #[trigger] states[j + 1].translation_of(v) is Some implies
        states[i].translation_of(v) == states[j + 1].translation_of(v) by {
        lemma_run_keeps_translations(visit, n_vals, states, r, j + 1, i, v);
    }
    if i == 0 {
        lemma_initial_translates_nothing(states[0], n_vals, v);
    } else {
        lemma_run_registrations(visit, n_vals, states, r, i - 1, v);
        if states[i].translation_of(v) is Some {
            if states[i - 1].translation_of(v) is Some {
                let j = choose|j: int| {
                    &&& 0 <= j < i - 1
                    &&& states[j].translation_of(v) is None
                    &&& #[trigger] states[j + 1].translation_of(v) is Some
                };
                assert(states[j + 1].translation_of(v) is Some);
            } else {
                assert(states[(i - 1) + 1].translation_of(v) is Some);
            }
        } else {
            assert forall|j: int| 0 <= j < i && states[j].translation_of(v) is None implies
                !(#[trigger] states[j + 1].translation_of(v) is Some) by {
                if states[j + 1].translation_of(v) is Some {
                    lemma_run_keeps_translations(visit, n_vals, states, r, j + 1, i, v);
                }
            }
        }
    }
}

/// A run of an annotated driver is a run of a plain driver that emits as it does on every
/// operation: over the same visits from the same fresh state, the same sequences of states are
/// admitted, so both translations give the same outputs and provenance.
pub proof fn lemma_ann_run_matches_plain<
    ID: Dialect,
    OpAnn,
    ValAnn,
    OD: Dialect,
    A: AnnTranslationDriver<ID, OpAnn, ValAnn, OD>,
    P: TranslationDriver<ID, OD>,
>(
    ann_driver: &A,
    driver: &P,
    ir: IR<ID>,
    op_anns: OpMap<OpAnn>,
    val_anns: ValMap<ValAnn>,
    visit: Seq<OpId>,
    states: Seq<Translator<ID, OD>>,
)
    requires
        forall|op: OpId, before: Translator<ID, OD>, after: Translator<ID, OD>|
            #[trigger] ann_driver.emits(ir, op_anns, val_anns, op, before, after) == driver.emits(ir, op, before, after),
    ensures
        ann_driven(ann_driver, ir, op_anns, val_anns, visit, states) == driven(driver, ir, visit, states),
{
}

/// Whether the output operations, listed by `provenance`, were emitted in visit order: each
/// traces back to a visited operation, and later output operations to later (or the same)
/// visits.
pub open spec fn follows_visit(provenance: Seq<OpId>, visit: Seq<OpId>) -> bool {
    exists|idx: Seq<int>| emission_indices(provenance, visit, idx)
}

/// `idx` gives, for every output operation, the visit that emitted it.
pub open spec fn emission_indices(provenance: Seq<OpId>, visit: Seq<OpId>, idx: Seq<int>) -> bool {
    &&& idx.len() == provenance.len()
    &&& forall|p: int| 0 <= p < idx.len() ==> 0 <= #[trigger] idx[p] < visit.len() && provenance[p] == visit[idx[p]]
    &&& forall|p: int, q: int| 0 <= p < q < idx.len() ==> #[trigger] idx[p] <= #[trigger] idx[q]
}

/// The operations visited for `order` over an IR of `n` operations.
pub open spec fn visit_order(order: &Order, n: nat) -> Seq<OpId> {
    match order {
        Order::Custom(ids) => ids@,
        _ => Seq::new(n, |i: int| OpId(i as u32)),
    }
}

impl<ID: Dialect, OD: Dialect> Translator<ID, OD> {
    fn start(n_vals: usize) -> (r: Self)
        ensures
            r.wf(),
            r.is_initial(n_vals as nat),
            r.spec_output().spec_n_ops() == 0,
            r.spec_provenance().len() == 0,
            r.spec_current() is None,
            r.spec_valmap().spec_len() == n_vals,
            forall|i: int| 0 <= i < n_vals ==> #[trigger] r.spec_valmap().slots()[i] is None,
    {
        let r = Translator {
            output: IR::empty(),
            valmap: ValMap::new_empty(n_vals),
            provenance_map: ProvenanceMap(Vec::new()),
            current: None,
            phantom: PhantomData,
        };
        proof {
            assert(r.spec_provenance() =~= Seq::<OpId>::empty());
        }
        r
    }

    fn set_current(&mut self, op: OpId)
        requires
            old(self).wf(),
        ensures
            final(self).wf(),
            final(self).spec_current() == Some(op),
            *final(self) == old(self).entering(op),
            final(self).spec_output() == old(self).spec_output(),
            final(self).spec_valmap() == old(self).spec_valmap(),
            final(self).spec_provenance() == old(self).spec_provenance(),
    {
        self.current = Some(op);
    }
}

/// Extends an emission-index witness across one driver call that emitted for visit `k`.
proof fn lemma_extend_indices(prev: Seq<OpId>, next: Seq<OpId>, visit: Seq<OpId>, idx: Seq<int>, k: int) -> (r: Seq<int>)
    requires
        emission_indices(prev, visit, idx),
        0 <= k < visit.len(),
        forall|p: int| 0 <= p < idx.len() ==> #[trigger] idx[p] <= k,
        next.len() >= prev.len(),
        forall|p: int| 0 <= p < prev.len() ==> #[trigger] next[p] == prev[p],
        forall|p: int| prev.len() <= p < next.len() ==> #[trigger] next[p] == visit[k],
    ensures
        emission_indices(next, visit, r),
        forall|p: int| 0 <= p < r.len() ==> #[trigger] r[p] <= k,
{
    let r = idx + Seq::new((next.len() - prev.len()) as nat, |i: int| k);
    assert forall|p: int| 0 <= p < r.len() implies 0 <= #[trigger] r[p] < visit.len() && next[p] == visit[r[p]] by {
        if p < idx.len() {
            assert(r[p] == idx[p]);
        } else {
            assert(r[p] == k);
        }
    }
    assert forall|p: int, q: int| 0 <= p < q < r.len() implies #[trigger] r[p] <= #[trigger] r[q] by {
        if q < idx.len() {
            assert(r[p] == idx[p] && r[q] == idx[q]);
        } else if p < idx.len() {
            assert(r[p] == idx[p]);
        }
    }
    r
}

/// Translates `ir` by visiting its operations in the given order, handing each one to the
/// driver together with the translation state. Starting from a fresh state, the driver is called
/// once per visited operation, in visit order, on the state entered at that operation; the result
/// holds the output IR and the provenance of the last state, so that each output operation names
/// the operation whose driver call emitted it, and output operations follow the visit order.
pub fn translate<'a, ID: Dialect, OD: Dialect, F: TranslationDriver<ID, OD>>(
    ir: &'a IR<ID>,
    order: Order,
    driver: &F,
) -> (r: Translation<OD>)
    requires
        ir.wf(),
        order matches Order::Custom(ids) ==> forall|i: int| 0 <= i < ids@.len() ==> ir.has_op(#[trigger] ids@[i]),
    ensures
        r.output.wf(),
        r.provenance_map.sources().len() == r.output.spec_n_ops(),
        follows_visit(r.provenance_map.sources(), visit_order(&order, ir.spec_n_ops())),
        exists|states: Seq<Translator<ID, OD>>| {
            &&& #[trigger] run_frame(visit_order(&order, ir.spec_n_ops()), ir.spec_n_vals(), states, r)
            &&& driven(driver, *ir, visit_order(&order, ir.spec_n_ops()), states)
        },
{
    let ghost visit = visit_order(&order, ir.spec_n_ops());
    let ids = match order {
        Order::Linear => ir.walk_ops_linear(),
        Order::Topological => ir.walk_ops_topological(),
        Order::Custom(ids) => ids,
    };
    let mut translator: Translator<ID, OD> = Translator::start(ir.n_vals());
    let ghost mut idx: Seq<int> = Seq::empty();
    let ghost mut states: Seq<Translator<ID, OD>> = seq![translator];
    let mut k: usize = 0;
    while k < ids.len()
        invariant
            states.len() == k + 1,
            states[0].is_initial(ir.spec_n_vals()),
            states.last() == translator,
            forall|j: int| 0 <= j < k ==> #[trigger] states[j].entering(visit[j]).extends(&states[j + 1]),
            driven(driver, *ir, visit.take(k as int), states),
            ir.wf(),
            ids@ == visit,
            forall|i: int| 0 <= i < ids@.len() ==> ir.has_op(#[trigger] ids@[i]),
            translator.wf(),
            translator.spec_valmap().spec_len() == ir.spec_n_vals(),
            k <= ids@.len(),
            emission_indices(translator.spec_provenance(), visit, idx),
            forall|p: int| 0 <= p < idx.len() ==> #[trigger] idx[p] < k,
        decreases ids@.len() - k,
    {
        let op = ids[k];
        translator.set_current(op);
        let ghost before = translator;
        driver.drive(OpRef { ir, id: op }, &mut translator);
        proof {
            idx = lemma_extend_indices(before.spec_provenance(), translator.spec_provenance(), visit, idx, k as int);
            let prev = states;
            states = states.push(translator);
            assert(before == prev[k as int].entering(visit[k as int]));
            assert forall|j: int| 0 <= j < k + 1 implies #[trigger] states[j].entering(visit[j]).extends(&states[j + 1]) by {
                if j < k {
                    assert(states[j] == prev[j] && states[j + 1] == prev[j + 1]);
                }
            }
            assert forall|j: int| 0 <= j < visit.take(k + 1).len() implies driver.emits(*ir, visit.take(k + 1)[j], #[trigger] states[j].entering(visit.take(k + 1)[j]), states[j + 1]) by {
                if j < k {
                    assert(states[j] == prev[j] && states[j + 1] == prev[j + 1]);
                    assert(visit.take(k as int)[j] == visit[j]);
                    assert(driver.emits(*ir, visit.take(k as int)[j], prev[j].entering(visit.take(k as int)[j]), prev[j + 1]));
                }
            }
        }
        k = k + 1;
    }
    let r = translator.into_translation();
    proof {
        assert(emission_indices(r.provenance_map.sources(), visit, idx));
        assert(visit.take(k as int) =~= visit);
        assert(run_frame(visit, ir.spec_n_vals(), states, r));
    }
    r
}

/// Annotation-aware variant of [`translate`]: the run is the one `translate` makes over the viewed
/// IR, from the same fresh state and in the same visit order, the driver receiving annotated
/// operations.
pub fn translate_ann<'a, 'b, ID: Dialect, OpAnn, ValAnn, OD: Dialect, F: AnnTranslationDriver<ID, OpAnn, ValAnn, OD>>(
    ir: AnnIRView<'a, 'b, ID, OpAnn, ValAnn>,
    order: Order,
    driver: &F,
) -> (r: Translation<OD>)
    requires
        ir.wf(),
        order matches Order::Custom(ids) ==> forall|i: int| 0 <= i < ids@.len() ==> ir.view_ir().has_op(#[trigger] ids@[i]),
    ensures
        r.output.wf(),
        r.provenance_map.sources().len() == r.output.spec_n_ops(),
        follows_visit(r.provenance_map.sources(), visit_order(&order, ir.view_ir().spec_n_ops())),
        exists|states: Seq<Translator<ID, OD>>| {
            &&& #[trigger] run_frame(visit_order(&order, ir.view_ir().spec_n_ops()), ir.view_ir().spec_n_vals(), states, r)
            &&& ann_driven(driver, ir.view_ir(), ir.view_op_anns(), ir.view_val_anns(), visit_order(&order, ir.view_ir().spec_n_ops()), states)
        },
{
    let ghost visit = visit_order(&order, ir.view_ir().spec_n_ops());
    let src = ir.get_ir();
    let ids = match order {
        Order::Linear => src.walk_ops_linear(),
        Order::Topological => src.walk_ops_topological(),
        Order::Custom(ids) => ids,
    };
    let ops = ir.walk_ops_with(ids);
    let mut translator: Translator<ID, OD> = Translator::start(src.n_vals());
    let ghost mut idx: Seq<int> = Seq::empty();
    let mut ops = ops;
    let ghost all_ops = ops@;
    let total = ops.len();
    let mut remaining: Vec<AnnOpRef<'a, 'b, ID, OpAnn, ValAnn>> = Vec::new();
    let mut k: usize = ops.len();
    while k > 0
        invariant
            k <= all_ops.len(),
            ops@ == all_ops.take(k as int),
            remaining@.len() == all_ops.len() - k,
            forall|i: int| 0 <= i < remaining@.len() ==> #[trigger] remaining@[i] == all_ops[all_ops.len() - 1 - i],
        decreases k,
    {
        let o = match ops.pop() {
            Some(o) => o,
            None => {
                proof {
                    assert(false);
                }
                unreached()
            },
        };
        k = k - 1;
        remaining.push(o);
        proof {
            assert(ops@ =~= all_ops.take(k as int));
        }
    }
    let ghost mut states: Seq<Translator<ID, OD>> = seq![translator];
    let mut k: usize = 0;
    while remaining.len() > 0
        invariant
            states.len() == k + 1,
            states[0].is_initial(ir.view_ir().spec_n_vals()),
            states.last() == translator,
            forall|j: int| 0 <= j < k ==> #[trigger] states[j].entering(visit[j]).extends(&states[j + 1]),
            ann_driven(driver, ir.view_ir(), ir.view_op_anns(), ir.view_val_anns(), visit.take(k as int), states),
            ir.wf(),
            all_ops.len() == visit.len(),
            all_ops.len() == total,
            forall|i: int| 0 <= i < all_ops.len() ==> ir.is_op_ref(#[trigger] all_ops[i], visit[i]),
            forall|i: int| 0 <= i < visit.len() ==> ir.view_ir().has_op(#[trigger] visit[i]),
            remaining@.len() + k == all_ops.len(),
            forall|i: int| 0 <= i < remaining@.len() ==> #[trigger] remaining@[i] == all_ops[all_ops.len() - 1 - i],
            translator.wf(),
            translator.spec_valmap().spec_len() == ir.view_ir().spec_n_vals(),
            k <= all_ops.len(),
            emission_indices(translator.spec_provenance(), visit, idx),
            forall|p: int| 0 <= p < idx.len() ==> #[trigger] idx[p] < k,
        decreases remaining@.len(),
    {
        let o = match remaining.pop() {
            Some(o) => o,
            None => {
                proof {
                    assert(false);
                }
                unreached()
            },
        };
        proof {
            assert(o == all_ops[k as int]);
            assert(ir.is_op_ref(o, visit[k as int]));
        }
        translator.set_current(o.get_id());
        let ghost before = translator;
        driver.drive(o, &mut translator);
        proof {
            idx = lemma_extend_indices(before.spec_provenance(), translator.spec_provenance(), visit, idx, k as int);
            let prev = states;
            states = states.push(translator);
            assert(before == prev[k as int].entering(visit[k as int]));
            assert forall|j: int| 0 <= j < k + 1 implies #[trigger] states[j].entering(visit[j]).extends(&states[j + 1]) by {
                if j < k {
                    assert(states[j] == prev[j] && states[j + 1] == prev[j + 1]);
                }
            }
            assert forall|j: int| 0 <= j < visit.take(k + 1).len() implies driver.emits(
                ir.view_ir(),
                ir.view_op_anns(),
                ir.view_val_anns(),
                visit.take(k + 1)[j],
                #[trigger] states[j].entering(visit.take(k + 1)[j]),
                states[j + 1],
            ) by {
                if j < k {
                    assert(states[j] == prev[j] && states[j + 1] == prev[j + 1]);
                    assert(visit.take(k as int)[j] == visit[j]);
                    assert(driver.emits(
                        ir.view_ir(),
                        ir.view_op_anns(),
                        ir.view_val_anns(),
                        visit.take(k as int)[j],
                        prev[j].entering(visit.take(k as int)[j]),
                        prev[j + 1],
                    ));
                }
            }
        }
        k = k + 1;
    }
    let r = translator.into_translation();
    proof {
        assert(emission_indices(r.provenance_map.sources(), visit, idx));
        assert(visit.take(k as int) =~= visit);
        assert(run_frame(visit, ir.view_ir().spec_n_vals(), states, r));
    }
    r
}

} // verus!
