use zhc::annotation::{AnnIRView, AnnOpRef, AsOpRef, OpRef};
use zhc::eager::{EagerEvaluator, EvalError, Evaluable, EvaluatesTo, OpState, PushFailure, ValState};
use std::cell::RefCell;
use zhc::idmap::{OpMap, ValMap};
use zhc::ids::{OpId, ValId};
use zhc::ir::{DialectInstructionSet, DialectTypeSystem, Failure, Operation, IR};
use zhc::layout::{annotate_layout, LayoutDialect, LayoutInstructionSet, OpContent};
use zhc::locality::LayoutTypeSystem;
use zhc::pipeline_graph::build_pipeline;
use zhc::pipeline_lang::{Affinity, PipelineInstructionSet, PipelineLang, PipelineTypeSystem};
use zhc::shiftrot::{block_swap_luts, shiftrot_inner_luts, shiftrot_plan, CondPos, Lut1Def, ShiftRotKind};
use zhc::translation::{translate, translate_ann, AnnTranslationDriver, Order, TranslationDriver, Translator};

/// An artifact of the pipeline graph: its kind and a number standing for its content.
#[derive(Debug, Clone, PartialEq, Eq)]
struct Artifact {
    kind: PipelineTypeSystem,
    payload: u32,
}

impl EvaluatesTo<Artifact> for PipelineTypeSystem {
    fn spec_inhabited_by(&self, value: Artifact) -> bool {
        value.kind == *self
    }

    fn is_inhabited_by(&self, value: &Artifact) -> bool {
        value.kind == *self
    }
}

/// What a run of the pipeline graph does: the steps it ran, and the step it is told to fail.
#[derive(Default)]
struct Run {
    log: Vec<&'static str>,
    failing: Option<PipelineInstructionSet>,
}

impl Evaluable<Artifact> for PipelineInstructionSet {
    type Context = Run;

    fn eval(&self, run: &mut Run, args: Vec<&Artifact>) -> Result<Vec<Artifact>, String> {
        run.log.push(self.name());
        if run.failing == Some(*self) {
            return Err(format!("{} failed", self.name()));
        }
        let payload = args.iter().map(|a| a.payload).sum::<u32>() + 1;
        Ok(self.get_signature().get_returns().iter().map(|k| Artifact { kind: *k, payload }).collect())
    }
}

fn sample() -> (IR<PipelineLang>, Vec<ValId>) {
    let mut ir = IR::<PipelineLang>::empty();
    let (_, b) = ir.add_op(PipelineInstructionSet::InputBuilder, vec![]);
    let (_, c) = ir.add_op(PipelineInstructionSet::InputHpuConfig, vec![]);
    let (_, i) = ir.add_op(PipelineInstructionSet::BuilderToIopLang, vec![b[0]]);
    let (_, h) = ir.add_op(PipelineInstructionSet::IopLangToHpuLang, vec![i[0]]);
    let (_, s) = ir.add_op(PipelineInstructionSet::ScheduleHpuLang, vec![h[0], c[0]]);
    let (_, p) = ir.add_op(PipelineInstructionSet::BuilderToPrototype, vec![b[0]]);
    (ir, vec![b[0], c[0], i[0], h[0], s[0], p[0]])
}

#[test]
fn ir_building_and_walking() {
    let (ir, vals) = sample();
    assert_eq!(ir.n_ops(), 6);
    assert_eq!(ir.n_vals(), 6);
    assert_eq!(vals, ValId::range(0, 6));
    assert_eq!(ir.get_instruction(OpId(3)), &PipelineInstructionSet::IopLangToHpuLang);
    assert_eq!(ir.get_arg_valids(OpId(4)), &vec![ValId(3), ValId(1)]);
    assert_eq!(ir.get_return_valids(OpId(5)), &vec![ValId(5)]);
    assert_eq!(ir.get_origin(ValId(4)), (OpId(4), 0));
    assert_eq!(ir.walk_ops_linear(), OpId::range(0, 6));
    assert_eq!(ir.walk_vals_linear(), ValId::range(0, 6));
    let topo = ir.walk_ops_topological();
    assert_eq!(topo.len(), 6);
    let pos = |o: u32| topo.iter().position(|x| *x == OpId(o)).unwrap();
    assert!(pos(0) < pos(2) && pos(2) < pos(3) && pos(3) < pos(4) && pos(1) < pos(4) && pos(0) < pos(5));
}

#[test]
fn ir_rejects_unknown_values_and_wrong_types() {
    let (mut ir, _) = sample();
    assert_eq!(
        ir.try_add_op(PipelineInstructionSet::ScheduleHpuLang, vec![ValId(3), ValId(9), ValId(12)]),
        Err(Failure::UnknownValue(ValId(9)))
    );
    assert_eq!(
        ir.try_add_op(PipelineInstructionSet::ScheduleHpuLang, vec![ValId(1), ValId(3)]),
        Err(Failure::SignatureMismatch {
            expected: vec![PipelineTypeSystem::HpuLangTranslated, PipelineTypeSystem::HpuConfig],
            actual: vec![PipelineTypeSystem::HpuConfig, PipelineTypeSystem::HpuLangTranslated],
        })
    );
    assert_eq!(
        ir.try_add_op(PipelineInstructionSet::DrawSlack, vec![]),
        Err(Failure::SignatureMismatch { expected: vec![PipelineTypeSystem::IopLang], actual: vec![] })
    );
    assert_eq!(ir.n_ops(), 6);
    assert_eq!(ir.try_add_op(PipelineInstructionSet::DrawSlack, vec![ValId(2)]), Ok((OpId(6), vec![ValId(6)])));
    assert_eq!(ir.n_vals(), 7);
}

#[test]
fn eager_evaluation_records_failures_without_stopping() {
    let (ir, valids) = build_pipeline();
    let mut eval: EagerEvaluator<PipelineLang, Artifact> = EagerEvaluator::from_ir(&ir);
    assert_eq!(eval.get_val(valids.hpu_stream), Err(EvalError::PendingValId));
    let mut run = Run { failing: Some(PipelineInstructionSet::IopLangToHpuLang), ..Run::default() };
    assert_eq!(eval.push_all(&mut run), Ok(()));
    // Steps downstream of the failed lowering are never run.
    assert!(run.log.contains(&"iop_lang_to_hpu_lang"));
    assert!(!run.log.contains(&"schedule_hpu_lang"));
    assert!(run.log.contains(&"generate_multi_hpu_assembly"));
    let lowering = OpId(7);
    assert_eq!(ir.get_instruction(lowering), &PipelineInstructionSet::IopLangToHpuLang);
    assert_eq!(eval.get_val(valids.hpulang_translated), Err(EvalError::PoisonedValId(lowering)));
    assert_eq!(eval.get_val(valids.hpu_stream), Err(EvalError::PoisonedValId(lowering)));
    assert_eq!(eval.get_val(valids.builder), Ok(&Artifact { kind: PipelineTypeSystem::Builder, payload: 1 }));
    assert_eq!(eval.get_val(valids.ioplang), Ok(&Artifact { kind: PipelineTypeSystem::IopLang, payload: 2 }));
    assert_eq!(eval.get_val(valids.multi_hpu_stream).map(|a| a.kind), Ok(PipelineTypeSystem::MultiHpuStream));
    assert!(!eval.is_ok());
    let view = eval.as_view();
    for op in view.walk_ops_linear() {
        let step = *view.get_ir().get_instruction(op.get_id());
        match op.get_annotation() {
            OpState::Panicked(m) => {
                assert_eq!(step, PipelineInstructionSet::IopLangToHpuLang);
                assert_eq!(m, "iop_lang_to_hpu_lang failed");
            }
            OpState::PoisonedBy(p) => {
                assert_eq!(*p, lowering);
                assert_eq!(step.get_affinity(), Affinity::Hpu);
            }
            OpState::Evaluated => assert!(step != PipelineInstructionSet::IopLangToHpuLang),
            OpState::Pending => panic!("every step is pushed"),
        }
    }
    assert!(view.get_op(lowering).get_annotation().is_panic());
    for val in view.walk_vals_linear() {
        assert!(!matches!(val.get_annotation(), ValState::Pending));
    }
}

#[test]
fn eager_evaluation_of_a_healthy_run() {
    let (ir, valids) = build_pipeline();
    let mut eval: EagerEvaluator<PipelineLang, Artifact> = EagerEvaluator::from_ir(&ir);
    let mut run = Run::default();
    assert_eq!(eval.push_all(&mut run), Ok(()));
    assert_eq!(run.log.len(), 21);
    assert!(eval.is_ok());
    let values = eval.into_value_ir();
    let view = values.as_view();
    let kinds: Vec<PipelineTypeSystem> = view.walk_vals_linear().iter().map(|v| v.get_annotation().kind).collect();
    assert_eq!(kinds.len(), 22);
    assert_eq!(kinds[valids.doplang.0 as usize], PipelineTypeSystem::DopLang);
    assert_eq!(kinds[valids.multi_hpu_localities.0 as usize], PipelineTypeSystem::MultiHpuLocalities);
}

#[test]
fn eager_evaluation_one_step_at_a_time() {
    let (ir, v) = sample();
    let mut eval: EagerEvaluator<PipelineLang, Artifact> = EagerEvaluator::from_ir(&ir);
    let mut run = Run::default();
    assert_eq!(eval.push_op(&mut run, OpId(0)), Ok(()));
    assert_eq!(eval.get_val(v[5]), Err(EvalError::PendingValId));
    assert_eq!(eval.push_op(&mut run, OpId(5)), Ok(()));
    assert_eq!(eval.get_val(v[5]).map(|a| a.payload), Ok(2));
    assert!(!eval.is_ok());
    assert_eq!(run.log, vec!["input_builder", "builder_to_prototype"]);
}

#[test]
fn settling_an_evaluation() {
    let (ir, v) = sample();
    let mut eval: EagerEvaluator<PipelineLang, Artifact> = EagerEvaluator::from_ir(&ir);
    let mut run = Run::default();
    assert_eq!(eval.push_op(&mut run, OpId(0)), Ok(()));
    assert_eq!(eval.settle_evaluation(OpId(5), Ok(vec![])), Err(PushFailure::ReturnArityMismatch));
    let wrong = Artifact { kind: PipelineTypeSystem::Builder, payload: 1 };
    assert_eq!(eval.settle_evaluation(OpId(5), Ok(vec![wrong])), Err(PushFailure::ReturnTypeMismatch(0)));
    assert_eq!(eval.get_val(v[5]), Err(EvalError::PendingValId));
    assert_eq!(eval.settle_evaluation(OpId(5), Err("no prototype".to_string())), Ok(()));
    assert_eq!(eval.get_val(v[5]), Err(EvalError::PoisonedValId(OpId(5))));
    let lowered = Artifact { kind: PipelineTypeSystem::IopLang, payload: 9 };
    assert_eq!(eval.settle_evaluation(OpId(2), Ok(vec![lowered.clone()])), Ok(()));
    assert_eq!(eval.get_val(v[2]), Ok(&lowered));
    let view = eval.as_view();
    assert!(matches!(view.get_op(OpId(5)).get_annotation(), OpState::Panicked(m) if m == "no prototype"));
    assert!(matches!(view.get_op(OpId(2)).get_annotation(), OpState::Evaluated));
    // The evaluation was handed over whole: no step ran.
    assert!(run.log == vec!["input_builder"]);
}

#[test]
fn poisoned_arguments_skip_evaluation() {
    let (ir, v) = sample();
    let mut eval: EagerEvaluator<PipelineLang, Artifact> = EagerEvaluator::from_ir(&ir);
    let mut run = Run { failing: Some(PipelineInstructionSet::InputBuilder), ..Run::default() };
    assert_eq!(eval.push_op(&mut run, OpId(0)), Ok(()));
    assert_eq!(eval.push_op(&mut run, OpId(2)), Ok(()));
    assert_eq!(eval.push_op(&mut run, OpId(5)), Ok(()));
    assert_eq!(run.log, vec!["input_builder"]);
    assert_eq!(eval.get_val(v[2]), Err(EvalError::PoisonedValId(OpId(0))));
    assert_eq!(eval.get_val(v[5]), Err(EvalError::PoisonedValId(OpId(0))));
}

struct Copier;

impl TranslationDriver<PipelineLang, PipelineLang> for Copier {
    fn drive<'a>(&self, op: OpRef<'a, PipelineLang>, translator: &mut Translator<PipelineLang, PipelineLang>) {
        let instr = *op.get_instruction();
        translator.direct_translation(&op, instr);
    }
}

#[test]
fn translation_copies_in_visit_order() {
    let (ir, _) = sample();
    let out = translate(&ir, Order::Custom(vec![OpId(1), OpId(0), OpId(5), OpId(2), OpId(3), OpId(4)]), &Copier);
    assert_eq!(out.output.n_ops(), 6);
    assert_eq!(out.provenance_map.len(), 6);
    let sources: Vec<OpId> = (0..6u32).map(|k| out.provenance_map.index(OpId(k)).0).collect();
    assert_eq!(sources, vec![OpId(1), OpId(0), OpId(5), OpId(2), OpId(3), OpId(4)]);
    assert_eq!(out.output.get_instruction(OpId(2)), &PipelineInstructionSet::BuilderToPrototype);
    assert_eq!(out.output.get_arg_valids(OpId(2)), &vec![ValId(1)]);
    assert_eq!(out.output.get_arg_valids(OpId(5)), &vec![ValId(4), ValId(0)]);
    let mut names: OpMap<&str> = OpMap::new_empty(6);
    names.insert(OpId(0), "circuit");
    names.insert(OpId(5), "signature");
    let projected = out.provenance_map.project_opmap(&names);
    assert_eq!(projected.get(OpId(1)), Some(&"circuit"));
    assert_eq!(projected.get(OpId(2)), Some(&"signature"));
    assert_eq!(projected.get(OpId(0)), None);
}

#[test]
fn translation_linear_is_identity_on_ids() {
    let (ir, _) = sample();
    let out = translate(&ir, Order::Linear, &Copier);
    for k in 0..6u32 {
        assert_eq!(out.provenance_map.index(OpId(k)).0, OpId(k));
        assert_eq!(out.output.get_instruction(OpId(k)), ir.get_instruction(OpId(k)));
        assert_eq!(out.output.get_arg_valids(OpId(k)), ir.get_arg_valids(OpId(k)));
    }
}

/// Copies each operation, noting what the translator knew of its values before and after.
struct Checker {
    seen: RefCell<Vec<(OpId, bool, bool, Vec<ValId>)>>,
}

impl TranslationDriver<PipelineLang, PipelineLang> for Checker {
    fn drive<'a>(&self, op: OpRef<'a, PipelineLang>, translator: &mut Translator<PipelineLang, PipelineLang>) {
        let args_known = op.get_arg_valids().iter().all(|a| translator.has_translation(*a));
        let rets_fresh = op.get_return_valids().iter().all(|r| !translator.has_translation(*r));
        let instr = *op.get_instruction();
        translator.direct_translation(&op, instr);
        let targets = op.get_return_valids().iter().map(|r| translator.translate_val(*r)).collect();
        self.seen.borrow_mut().push((op.get_id(), args_known, rets_fresh, targets));
    }
}

#[test]
fn translation_registers_each_value_once() {
    let (ir, _) = sample();
    let checker = Checker { seen: RefCell::new(vec![]) };
    let out = translate(&ir, Order::Custom(vec![OpId(1), OpId(0), OpId(5), OpId(2), OpId(3), OpId(4)]), &checker);
    let seen = checker.seen.into_inner();
    let visited: Vec<OpId> = seen.iter().map(|s| s.0).collect();
    assert_eq!(visited, vec![OpId(1), OpId(0), OpId(5), OpId(2), OpId(3), OpId(4)]);
    assert!(seen.iter().all(|s| s.1 && s.2));
    let targets: Vec<Vec<ValId>> = seen.iter().map(|s| s.3.clone()).collect();
    assert_eq!(targets, vec![vec![ValId(0)], vec![ValId(1)], vec![ValId(2)], vec![ValId(3)], vec![ValId(4)], vec![ValId(5)]]);
    assert_eq!(out.output.get_arg_valids(OpId(5)), &vec![ValId(4), ValId(0)]);
}

/// Copies each annotated operation, noting the annotation it carries.
struct AnnCopier {
    seen: RefCell<Vec<(OpId, u8)>>,
}

impl AnnTranslationDriver<PipelineLang, u8, char, PipelineLang> for AnnCopier {
    fn drive<'a, 'b>(&self, op: AnnOpRef<'a, 'b, PipelineLang, u8, char>, translator: &mut Translator<PipelineLang, PipelineLang>) {
        self.seen.borrow_mut().push((op.get_id(), *op.get_annotation()));
        let plain = op.op_ref();
        let instr = *plain.get_instruction();
        translator.direct_translation(&plain, instr);
    }
}

#[test]
fn annotated_translation_matches_plain() {
    let (ir, _) = sample();
    let mut ops: OpMap<u8> = OpMap::new_empty(6);
    let mut vals: ValMap<char> = ValMap::new_empty(6);
    for k in 0..6u32 {
        ops.insert(OpId(k), k as u8 * 10);
        vals.insert(ValId(k), (b'a' + k as u8) as char);
    }
    let view = AnnIRView::new(&ir, &ops, &vals);
    let order = vec![OpId(0), OpId(1), OpId(2), OpId(5), OpId(3), OpId(4)];
    let driver = AnnCopier { seen: RefCell::new(vec![]) };
    let annotated = translate_ann(view, Order::Custom(order.clone()), &driver);
    let plain = translate(&ir, Order::Custom(order.clone()), &Copier);
    assert_eq!(driver.seen.into_inner(), vec![(OpId(0), 0), (OpId(1), 10), (OpId(2), 20), (OpId(5), 50), (OpId(3), 30), (OpId(4), 40)]);
    assert_eq!(annotated.output.n_ops(), plain.output.n_ops());
    for k in 0..6u32 {
        assert_eq!(annotated.provenance_map.index(OpId(k)), plain.provenance_map.index(OpId(k)));
        assert_eq!(annotated.output.get_instruction(OpId(k)), plain.output.get_instruction(OpId(k)));
        assert_eq!(annotated.output.get_arg_valids(OpId(k)), plain.output.get_arg_valids(OpId(k)));
    }
}

#[test]
fn annotated_view_reads_both_maps() {
    let (ir, _) = sample();
    let mut ops: OpMap<u8> = OpMap::new_empty(6);
    let mut vals: ValMap<char> = ValMap::new_empty(6);
    for k in 0..6u32 {
        ops.insert(OpId(k), k as u8 * 10);
        vals.insert(ValId(k), (b'a' + k as u8) as char);
    }
    assert!(ops.is_filled() && vals.is_filled());
    let view = AnnIRView::new(&ir, &ops, &vals);
    assert_eq!(*view.get_op(OpId(4)).get_annotation(), 40);
    assert_eq!(*view.get_val(ValId(3)).get_annotation(), 'd');
    let picked: Vec<u8> = view.walk_ops_with(vec![OpId(5), OpId(1)]).iter().map(|o| *o.get_annotation()).collect();
    assert_eq!(picked, vec![50, 10]);
    let letters: String = view.walk_vals_linear().iter().map(|v| *v.get_annotation()).collect();
    assert_eq!(letters, "abcdef");
    assert_eq!(view.walk_ops_topological().len(), 6);
    assert_eq!(view.op_annotations().len(), 6);
    assert_eq!(view.val_annotations().get(ValId(0)), Some(&'a'));
    let annotated = view.get_op(OpId(4));
    let plain = annotated.op_ref();
    assert_eq!(plain.get_id(), OpId(4));
    assert_eq!(plain.get_instruction(), &PipelineInstructionSet::ScheduleHpuLang);
    let direct = OpRef { ir: &ir, id: OpId(2) };
    let again = direct.op_ref();
    assert_eq!(again.get_arg_valids(), &vec![ValId(0)]);
    assert_eq!(again.get_return_arity(), 1);
}

#[test]
fn id_maps_store_and_take() {
    let mut m: OpMap<String> = OpMap::new_empty(3);
    assert!(!m.is_filled());
    assert_eq!(m.insert(OpId(1), "x".to_string()), None);
    assert_eq!(m.insert(OpId(1), "y".to_string()), Some("x".to_string()));
    assert!(m.contains_key(OpId(1)));
    assert_eq!(m.take(OpId(1)), Some("y".to_string()));
    assert!(!m.contains_key(OpId(1)));
    assert_eq!(m.len(), 3);
    let v: ValMap<u8> = ValMap::from_slots(vec![Some(1), Some(2)]);
    assert!(v.is_filled());
    assert_eq!(v.get(ValId(1)), Some(&2));
}

#[test]
fn pipeline_graph_shape() {
    let (ir, valids) = build_pipeline();
    assert_eq!(ir.n_ops(), 21);
    assert_eq!(ir.n_vals(), 22);
    assert_eq!(ir.get_instruction(OpId(0)), &PipelineInstructionSet::InputBuilder);
    assert_eq!(valids.builder, ValId(0));
    assert_eq!(ir.get_origin(valids.doplang).0, OpId(9));
    assert_eq!(ir.get_instruction(OpId(9)), &PipelineInstructionSet::AllocateDopLang);
    assert_eq!(ir.get_arg_valids(OpId(9)), &vec![valids.hpulang_scheduled, valids.hpu_config]);
    let (op, pos) = ir.get_origin(valids.multi_hpu_localities);
    assert_eq!(ir.get_instruction(op), &PipelineInstructionSet::IopLangToMultiHpu);
    assert_eq!(pos, 1);
    // Each artifact type is produced by exactly one step.
    for v in ir.walk_vals_linear() {
        let (op, pos) = ir.get_origin(v);
        let ty = ir.get_instruction(op).get_signature().get_returns()[pos];
        let producers = ir
            .walk_ops_linear()
            .into_iter()
            .filter(|o| ir.get_instruction(*o).get_signature().get_returns().contains(&ty))
            .count();
        assert_eq!(producers, 1);
    }
    // The single-board and multi-board branches exchange no artifact.
    for o in ir.walk_ops_linear() {
        let step = ir.get_instruction(o);
        for a in ir.get_arg_valids(o) {
            let from = ir.get_instruction(ir.get_origin(*a).0).get_affinity();
            let to = step.get_affinity();
            assert!(!(from == Affinity::Hpu && to == Affinity::MultiHpu));
            assert!(!(from == Affinity::MultiHpu && to == Affinity::Hpu));
        }
    }
}

#[test]
fn pipeline_steps_and_types() {
    assert_eq!(PipelineInstructionSet::TraceMultiHpuExecution.name(), "trace_multi_hpu_execution");
    assert_eq!(PipelineInstructionSet::DrawSlack.get_affinity(), Affinity::Commons);
    let sig = PipelineInstructionSet::ComputeHpuMetrics.get_signature();
    assert_eq!(sig.get_args(), &vec![PipelineTypeSystem::DopLang, PipelineTypeSystem::HpuLangScheduled]);
    assert_eq!(sig.get_returns(), &vec![PipelineTypeSystem::HpuMetrics]);
    assert!(PipelineTypeSystem::Builder.same_type(&PipelineTypeSystem::Builder));
    let mut ir = IR::<PipelineLang>::empty();
    let (_, b) = ir.add_op(PipelineInstructionSet::InputBuilder, vec![]);
    assert_eq!(
        ir.try_add_op(PipelineInstructionSet::GenerateHpuStream, vec![b[0]]),
        Err(Failure::SignatureMismatch {
            expected: vec![PipelineTypeSystem::DopLang],
            actual: vec![PipelineTypeSystem::Builder],
        })
    );
}

fn content(args: usize, returns: usize) -> OpContent {
    OpContent {
        args: vec!["%0".to_string(); args],
        returns: vec!["%1".to_string(); returns],
        call: "op".to_string(),
        comment: None,
        annotation: None,
        arg_annotations: vec![None; args],
        return_annotations: vec![None; returns],
    }
}

#[test]
fn layout_annotation_reaches_nested_groups() {
    let node = |instruction: LayoutInstructionSet| Operation { instruction, args: vec![], returns: vec![] };
    let mut ir = IR::<LayoutDialect>::empty();
    let (_, a) = ir.add_op(
        LayoutInstructionSet::Operation { opid: OpId(7), op: content(0, 1), args: vec![], returns: vec![ValId(0)] },
        vec![],
    );
    let group = LayoutInstructionSet::Group {
        body: vec![
            node(LayoutInstructionSet::GroupInput { pos: 0, valid: ValId(0) }),
            node(LayoutInstructionSet::Operation { opid: OpId(8), op: content(1, 0), args: vec![], returns: vec![] }),
        ],
        name: "inner".to_string(),
    };
    let (_, _) = ir.add_op(group, vec![a[0]]);
    let mut annotations: OpMap<String> = OpMap::new_empty(10);
    annotations.insert(OpId(7), "hot".to_string());
    annotations.insert(OpId(8), "cold".to_string());
    annotate_layout(&mut ir, &annotations);
    assert_eq!(ir.n_ops(), 2);
    match ir.get_instruction(OpId(0)) {
        LayoutInstructionSet::Operation { opid, op, .. } => {
            assert_eq!(*opid, OpId(7));
            assert_eq!(op.annotation, Some("hot".to_string()));
            assert_eq!(op.returns.len(), 1);
        }
        _ => panic!("the first node is a display node"),
    }
    match ir.get_instruction(OpId(1)) {
        LayoutInstructionSet::Group { body, name } => {
            assert_eq!(name, "inner");
            assert!(matches!(body[0].instruction, LayoutInstructionSet::GroupInput { pos: 0, .. }));
            match &body[1].instruction {
                LayoutInstructionSet::Operation { op, .. } => assert_eq!(op.annotation, Some("cold".to_string())),
                _ => panic!("the second body node is a display node"),
            }
        }
        _ => panic!("the second node is a group"),
    }
    assert_eq!(ir.get_arg_valids(OpId(1)), &vec![ValId(0)]);
}

#[test]
fn layout_signatures() {
    let op = LayoutInstructionSet::Operation { opid: OpId(0), op: content(2, 3), args: vec![], returns: vec![] };
    let sig = op.get_signature();
    assert_eq!(sig.get_args().len(), 2);
    assert_eq!(sig.get_returns(), &vec![LayoutTypeSystem::Value; 3]);
    let node = |instruction: LayoutInstructionSet| Operation { instruction, args: vec![], returns: vec![] };
    let group = LayoutInstructionSet::Group {
        body: vec![
            node(LayoutInstructionSet::GroupInput { pos: 0, valid: ValId(0) }),
            node(LayoutInstructionSet::Dummy { valid: ValId(0) }),
            node(LayoutInstructionSet::GroupInput { pos: 1, valid: ValId(1) }),
            node(LayoutInstructionSet::GroupOutput { pos: 0, valid: ValId(2) }),
        ],
        name: "block".to_string(),
    };
    let sig = group.get_signature();
    assert_eq!(sig.get_args().len(), 2);
    assert_eq!(sig.get_returns().len(), 1);
    assert_eq!(LayoutInstructionSet::GroupInput { pos: 0, valid: ValId(0) }.get_signature().get_args().len(), 0);
    assert_eq!(LayoutInstructionSet::GroupOutput { pos: 0, valid: ValId(0) }.get_signature().get_returns().len(), 0);
    assert_eq!(LayoutInstructionSet::Dummy { valid: ValId(0) }.get_signature().get_returns().len(), 1);
    let _ = IR::<LayoutDialect>::empty();
}

#[test]
fn shifter_wiring() {
    let plan = shiftrot_plan(ShiftRotKind::ShiftRight, 4, 2);
    assert_eq!(plan.merge, vec![Some(1), Some(2), Some(3), None]);
    assert_eq!(plan.stages.len(), 2);
    assert_eq!(plan.stages[0].stride, 1);
    assert_eq!(plan.stages[0].cond_block, 0);
    assert_eq!(plan.stages[0].cond_pos, CondPos::Pos1);
    assert_eq!(plan.stages[0].sources, vec![Some(1), Some(2), Some(3), None]);
    assert_eq!(plan.stages[1].stride, 2);
    assert_eq!(plan.stages[1].cond_block, 1);
    assert_eq!(plan.stages[1].cond_pos, CondPos::Pos0);
    assert_eq!(plan.stages[1].sources, vec![Some(2), Some(3), None, None]);
    let rot = shiftrot_plan(ShiftRotKind::RotateLeft, 8, 2);
    assert_eq!(rot.merge, vec![Some(7), Some(0), Some(1), Some(2), Some(3), Some(4), Some(5), Some(6)]);
    assert_eq!(rot.stages.len(), 3);
    assert_eq!(rot.stages[2].stride, 4);
    assert_eq!(rot.stages[2].cond_block, 1);
    assert_eq!(rot.stages[2].sources, vec![Some(4), Some(5), Some(6), Some(7), Some(0), Some(1), Some(2), Some(3)]);
    assert_eq!(shiftrot_plan(ShiftRotKind::ShiftLeft, 1, 2).stages.len(), 0);
    assert_eq!(
        shiftrot_inner_luts(ShiftRotKind::RotateRight),
        (Lut1Def::ShiftRightByCarryPos0Msg, Lut1Def::ShiftRightByCarryPos0MsgNext)
    );
    assert_eq!(block_swap_luts(CondPos::Pos1), (Lut1Def::IfPos1TrueZeroed, Lut1Def::IfPos1FalseZeroed));
}

#[test]
fn shifter_moves_blocks_by_the_amount() {
    // Applying the stages to labelled blocks shifts them by the binary value of the amount bits.
    let n = 8usize;
    for kind in [ShiftRotKind::ShiftRight, ShiftRotKind::ShiftLeft, ShiftRotKind::RotateRight, ShiftRotKind::RotateLeft] {
        let plan = shiftrot_plan(kind, n, 2);
        for amount in 0..n {
            let mut blocks: Vec<Option<usize>> = (0..n).map(Some).collect();
            for (s, stage) in plan.stages.iter().enumerate() {
                if (amount >> s) & 1 == 1 {
                    blocks = stage.sources.iter().map(|src| src.and_then(|j| blocks[j])).collect();
                }
            }
            let expected: Vec<Option<usize>> = (0..n)
                .map(|i| match kind {
                    ShiftRotKind::ShiftRight => if i + amount < n { Some(i + amount) } else { None },
                    ShiftRotKind::ShiftLeft => if i >= amount { Some(i - amount) } else { None },
                    ShiftRotKind::RotateRight => Some((i + amount) % n),
                    ShiftRotKind::RotateLeft => Some((i + n - amount) % n),
                })
                .collect();
            assert_eq!(blocks, expected);
        }
    }
}
