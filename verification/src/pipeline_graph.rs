//! The compilation flow, described once as an IR of the pipeline dialect.
use vstd::prelude::*;
use crate::ids::ValId;
use crate::ir::IR;
use crate::pipeline_lang::{PipelineInstructionSet, PipelineLang, PipelineTypeSystem};

verus! {

/// The value standing for each artifact in the pipeline IR.
#[derive(Debug, Clone, Copy, PartialEq, Eq, Structural)]
pub struct ArtifactsValids {
    pub builder: ValId,
    pub hpu_config: ValId,
    pub ioplang: ValId,
    pub partitions: ValId,
    pub prototype: ValId,
    pub slack_drawing: ValId,
    pub pbs_metrics: ValId,
    pub hpulang_translated: ValId,
    pub hpulang_scheduled: ValId,
    pub doplang: ValId,
    pub hpu_stream: ValId,
    pub hpu_trace: ValId,
    pub hpu_metrics: ValId,
    pub hpu_assembly: ValId,
    pub multi_hpu_config: ValId,
    pub multi_hpulang_translated: ValId,
    pub multi_hpu_localities: ValId,
    pub multi_hpulang_scheduled: ValId,
    pub multi_doplang: ValId,
    pub multi_hpu_trace: ValId,
    pub multi_hpu_stream: ValId,
    pub multi_hpu_assembly: ValId,
}

impl ArtifactsValids {
    /// Every artifact is a value of `ir` of the kind its name says.
    pub open spec fn typed_in(&self, ir: &IR<PipelineLang>) -> bool {
        &&& typed(ir, self.builder, PipelineTypeSystem::Builder)
        &&& typed(ir, self.hpu_config, PipelineTypeSystem::HpuConfig)
        &&& typed(ir, self.ioplang, PipelineTypeSystem::IopLang)
        &&& typed(ir, self.partitions, PipelineTypeSystem::Partitions)
        &&& typed(ir, self.prototype, PipelineTypeSystem::Prototype)
        &&& typed(ir, self.slack_drawing, PipelineTypeSystem::SlackDrawing)
        &&& typed(ir, self.pbs_metrics, PipelineTypeSystem::PbsMetrics)
        &&& typed(ir, self.hpulang_translated, PipelineTypeSystem::HpuLangTranslated)
        &&& typed(ir, self.hpulang_scheduled, PipelineTypeSystem::HpuLangScheduled)
        &&& typed(ir, self.doplang, PipelineTypeSystem::DopLang)
        &&& typed(ir, self.hpu_stream, PipelineTypeSystem::HpuStream)
        &&& typed(ir, self.hpu_trace, PipelineTypeSystem::HpuTrace)
        &&& typed(ir, self.hpu_metrics, PipelineTypeSystem::HpuMetrics)
        &&& typed(ir, self.hpu_assembly, PipelineTypeSystem::HpuAssembly)
        &&& typed(ir, self.multi_hpu_config, PipelineTypeSystem::MultiHpuConfig)
        &&& typed(ir, self.multi_hpulang_translated, PipelineTypeSystem::MultiHpuLangTranslated)
        &&& typed(ir, self.multi_hpu_localities, PipelineTypeSystem::MultiHpuLocalities)
        &&& typed(ir, self.multi_hpulang_scheduled, PipelineTypeSystem::MultiHpuLangScheduled)
        &&& typed(ir, self.multi_doplang, PipelineTypeSystem::MultiDopLang)
        &&& typed(ir, self.multi_hpu_trace, PipelineTypeSystem::MultiHpuTrace)
        &&& typed(ir, self.multi_hpu_stream, PipelineTypeSystem::MultiHpuStream)
        &&& typed(ir, self.multi_hpu_assembly, PipelineTypeSystem::MultiHpuAssembly)
    }
}

/// `v` is a value of `ir` of kind `t`.
pub open spec fn typed(ir: &IR<PipelineLang>, v: ValId, t: PipelineTypeSystem) -> bool {
    ir.has_val(v) && ir.val_type(v) == t
}

/// Artifacts kept from `a` to `b` and from `b` to `c` are kept from `a` to `c`.
proof fn lemma_typed_chain(a: &IR<PipelineLang>, b: &IR<PipelineLang>, c: &IR<PipelineLang>)
    requires
        forall|v: ValId, t: PipelineTypeSystem| typed(a, v, t) ==> #[trigger] typed(b, v, t),
        forall|v: ValId, t: PipelineTypeSystem| typed(b, v, t) ==> #[trigger] typed(c, v, t),
    ensures
        forall|v: ValId, t: PipelineTypeSystem| typed(a, v, t) ==> #[trigger] typed(c, v, t),
{
    assert forall|v: ValId, t: PipelineTypeSystem| typed(a, v, t) implies #[trigger] typed(c, v, t) by {
        assert(typed(b, v, t));
    }
}

/// Adds one compilation step, returning the artifacts it produces.
fn push_step(ir: &mut IR<PipelineLang>, instr: PipelineInstructionSet, args: Vec<ValId>) -> (rets: Vec<ValId>)
    requires
        old(ir).wf(),
        old(ir).spec_n_ops() < 64,
        old(ir).spec_n_vals() < 64,
        args@.len() == instr.spec_args().len(),
        forall|k: int| 0 <= k < args@.len() ==> typed(&*old(ir), #[trigger] args@[k], instr.spec_args()[k]),
    ensures
        final(ir).wf(),
        final(ir).spec_n_ops() == old(ir).spec_n_ops() + 1,
        final(ir).spec_n_vals() == old(ir).spec_n_vals() + instr.spec_returns().len(),
        forall|v: ValId, t: PipelineTypeSystem| typed(&*old(ir), v, t) ==> #[trigger] typed(&*final(ir), v, t),
        rets@.len() == instr.spec_returns().len(),
        forall|j: int| 0 <= j < rets@.len() ==> typed(&*final(ir), #[trigger] rets@[j], instr.spec_returns()[j]),
{
    let ghost g = *ir;
    proof {
        assert(ir.val_types(args@) =~= instr.spec_args());
        assert(instr.spec_returns().len() <= 2);
    }
    let (op, rets) = ir.add_op(instr, args);
    proof {
        assert forall|v: ValId, t: PipelineTypeSystem| typed(&g, v, t) implies #[trigger] typed(&*ir, v, t) by {
            assert(ir.spec_vals()[v.0 as int] == g.spec_vals()[v.0 as int]);
            g.lemma_val_wf(v);
            assert(ir.spec_ops()[g.origin(v).0 as int] == g.spec_ops()[g.origin(v).0 as int]);
        }
        ir.lemma_op_wf(op);
        assert forall|j: int| 0 <= j < rets@.len() implies typed(&*ir, #[trigger] rets@[j], instr.spec_returns()[j]) by {
            let v = rets@[j];
            ir.lemma_val_wf(v);
        }
    }
    rets
}

#[verifier::rlimit(40)]
#[verifier::spinoff_prover]
fn build_commons(ir: &mut IR<PipelineLang>) -> (r: (ValId, ValId, ValId, ValId, ValId, ValId, ValId,))
    requires
        old(ir).wf(),
        old(ir).spec_n_ops() == 0,
        old(ir).spec_n_vals() == 0,
    ensures
        final(ir).wf(),
        final(ir).spec_n_ops() == 7,
        final(ir).spec_n_vals() == 7,
        forall|v: ValId, t: PipelineTypeSystem| typed(&*old(ir), v, t) ==> #[trigger] typed(&*final(ir), v, t),
        typed(&*final(ir), r.0, PipelineTypeSystem::Builder),
        typed(&*final(ir), r.1, PipelineTypeSystem::HpuConfig),
        typed(&*final(ir), r.2, PipelineTypeSystem::IopLang),
        typed(&*final(ir), r.3, PipelineTypeSystem::Partitions),
        typed(&*final(ir), r.4, PipelineTypeSystem::Prototype),
        typed(&*final(ir), r.5, PipelineTypeSystem::SlackDrawing),
        typed(&*final(ir), r.6, PipelineTypeSystem::PbsMetrics),
{
    let ghost g0 = *ir;
    let ghost g_prev = *ir;
    let rets = push_step(ir, PipelineInstructionSet::InputBuilder, vec![]);
    let builder = rets[0];
    proof {
        lemma_typed_chain(&g0, &g_prev, &*ir);
    }
    let ghost g_prev = *ir;
    let rets = push_step(ir, PipelineInstructionSet::InputHpuConfig, vec![]);
    let hpu_config = rets[0];
    proof {
        lemma_typed_chain(&g0, &g_prev, &*ir);
    }
    let ghost g_prev = *ir;
    let rets = push_step(ir, PipelineInstructionSet::BuilderToIopLang, vec![builder]);
    let ioplang = rets[0];
    proof {
        lemma_typed_chain(&g0, &g_prev, &*ir);
    }
    let ghost g_prev = *ir;
    let rets = push_step(ir, PipelineInstructionSet::BuilderToPartitions, vec![builder]);
    let partitions = rets[0];
    proof {
        lemma_typed_chain(&g0, &g_prev, &*ir);
    }
    let ghost g_prev = *ir;
    let rets = push_step(ir, PipelineInstructionSet::BuilderToPrototype, vec![builder]);
    let prototype = rets[0];
    proof {
        lemma_typed_chain(&g0, &g_prev, &*ir);
    }
    let ghost g_prev = *ir;
    let rets = push_step(ir, PipelineInstructionSet::DrawSlack, vec![ioplang]);
    let slack_drawing = rets[0];
    proof {
        lemma_typed_chain(&g0, &g_prev, &*ir);
    }
    let ghost g_prev = *ir;
    let rets = push_step(ir, PipelineInstructionSet::ComputePbsMetrics, vec![ioplang]);
    let pbs_metrics = rets[0];
    proof {
        lemma_typed_chain(&g0, &g_prev, &*ir);
    }
    (builder, hpu_config, ioplang, partitions, prototype, slack_drawing, pbs_metrics,)
}

#[verifier::rlimit(40)]
#[verifier::spinoff_prover]
fn build_hpu(ir: &mut IR<PipelineLang>, builder: ValId, hpu_config: ValId, ioplang: ValId, partitions: ValId, prototype: ValId, slack_drawing: ValId, pbs_metrics: ValId) -> (r: (ValId, ValId, ValId, ValId, ValId, ValId, ValId,))
    requires
        old(ir).wf(),
        old(ir).spec_n_ops() == 7,
        old(ir).spec_n_vals() == 7,
        typed(&*old(ir), builder, PipelineTypeSystem::Builder),
        typed(&*old(ir), hpu_config, PipelineTypeSystem::HpuConfig),
        typed(&*old(ir), ioplang, PipelineTypeSystem::IopLang),
        typed(&*old(ir), partitions, PipelineTypeSystem::Partitions),
        typed(&*old(ir), prototype, PipelineTypeSystem::Prototype),
        typed(&*old(ir), slack_drawing, PipelineTypeSystem::SlackDrawing),
        typed(&*old(ir), pbs_metrics, PipelineTypeSystem::PbsMetrics),
    ensures
        final(ir).wf(),
        final(ir).spec_n_ops() == 14,
        final(ir).spec_n_vals() == 14,
        forall|v: ValId, t: PipelineTypeSystem| typed(&*old(ir), v, t) ==> #[trigger] typed(&*final(ir), v, t),
        typed(&*final(ir), r.0, PipelineTypeSystem::HpuLangTranslated),
        typed(&*final(ir), r.1, PipelineTypeSystem::HpuLangScheduled),
        typed(&*final(ir), r.2, PipelineTypeSystem::DopLang),
        typed(&*final(ir), r.3, PipelineTypeSystem::HpuStream),
        typed(&*final(ir), r.4, PipelineTypeSystem::HpuTrace),
        typed(&*final(ir), r.5, PipelineTypeSystem::HpuMetrics),
        typed(&*final(ir), r.6, PipelineTypeSystem::HpuAssembly),
{
    let ghost g0 = *ir;
    let ghost g_prev = *ir;
    let rets = push_step(ir, PipelineInstructionSet::IopLangToHpuLang, vec![ioplang]);
    let hpulang_translated = rets[0];
    proof {
        lemma_typed_chain(&g0, &g_prev, &*ir);
    }
    let ghost g_prev = *ir;
    let rets = push_step(ir, PipelineInstructionSet::ScheduleHpuLang, vec![hpulang_translated, hpu_config]);
    let hpulang_scheduled = rets[0];
    proof {
        lemma_typed_chain(&g0, &g_prev, &*ir);
    }
    let ghost g_prev = *ir;
    let rets = push_step(ir, PipelineInstructionSet::AllocateDopLang, vec![hpulang_scheduled, hpu_config]);
    let doplang = rets[0];
    proof {
        lemma_typed_chain(&g0, &g_prev, &*ir);
    }
    let ghost g_prev = *ir;
    let rets = push_step(ir, PipelineInstructionSet::GenerateHpuStream, vec![doplang]);
    let hpu_stream = rets[0];
    proof {
        lemma_typed_chain(&g0, &g_prev, &*ir);
    }
    let ghost g_prev = *ir;
    let rets = push_step(ir, PipelineInstructionSet::TraceHpuExecution, vec![doplang, hpu_config]);
    let hpu_trace = rets[0];
    proof {
        lemma_typed_chain(&g0, &g_prev, &*ir);
    }
    let ghost g_prev = *ir;
    let rets = push_step(ir, PipelineInstructionSet::ComputeHpuMetrics, vec![doplang, hpulang_scheduled]);
    let hpu_metrics = rets[0];
    proof {
        lemma_typed_chain(&g0, &g_prev, &*ir);
    }
    let ghost g_prev = *ir;
    let rets = push_step(ir, PipelineInstructionSet::GenerateHpuAssembly, vec![doplang]);
    let hpu_assembly = rets[0];
    proof {
        lemma_typed_chain(&g0, &g_prev, &*ir);
    }
    (hpulang_translated, hpulang_scheduled, doplang, hpu_stream, hpu_trace, hpu_metrics, hpu_assembly,)
}

fn build_multi_front(ir: &mut IR<PipelineLang>, ioplang: ValId, partitions: ValId) -> (r: (ValId, ValId, ValId, ValId,))
    requires
        old(ir).wf(),
        old(ir).spec_n_ops() == 14,
        old(ir).spec_n_vals() == 14,
        typed(&*old(ir), ioplang, PipelineTypeSystem::IopLang),
        typed(&*old(ir), partitions, PipelineTypeSystem::Partitions),
    ensures
        final(ir).wf(),
        final(ir).spec_n_ops() == 17,
        final(ir).spec_n_vals() == 18,
        forall|v: ValId, t: PipelineTypeSystem| typed(&*old(ir), v, t) ==> #[trigger] typed(&*final(ir), v, t),
        typed(&*final(ir), r.0, PipelineTypeSystem::MultiHpuConfig),
        typed(&*final(ir), r.1, PipelineTypeSystem::MultiHpuLangTranslated),
        typed(&*final(ir), r.2, PipelineTypeSystem::MultiHpuLocalities),
        typed(&*final(ir), r.3, PipelineTypeSystem::MultiHpuLangScheduled),
{
    let ghost g0 = *ir;
    let rets = push_step(ir, PipelineInstructionSet::InputMultiHpuConfig, vec![]);
    let multi_hpu_config = rets[0];
    let ghost g1 = *ir;
    let rets = push_step(ir, PipelineInstructionSet::IopLangToMultiHpu, vec![ioplang, partitions]);
    let multi_hpulang_translated = rets[0];
    let multi_hpu_localities = rets[1];
    proof {
        lemma_typed_chain(&g0, &g1, &*ir);
    }
    let ghost g2 = *ir;
    let rets = push_step(ir, PipelineInstructionSet::ScheduleMultiHpuLang, vec![multi_hpulang_translated, multi_hpu_localities, multi_hpu_config]);
    let multi_hpulang_scheduled = rets[0];
    proof {
        lemma_typed_chain(&g0, &g2, &*ir);
    }
    (multi_hpu_config, multi_hpulang_translated, multi_hpu_localities, multi_hpulang_scheduled,)
}

fn build_multi_back(ir: &mut IR<PipelineLang>, multi_hpu_config: ValId, multi_hpulang_scheduled: ValId) -> (r: (ValId, ValId, ValId, ValId,))
    requires
        old(ir).wf(),
        old(ir).spec_n_ops() == 17,
        old(ir).spec_n_vals() == 18,
        typed(&*old(ir), multi_hpu_config, PipelineTypeSystem::MultiHpuConfig),
        typed(&*old(ir), multi_hpulang_scheduled, PipelineTypeSystem::MultiHpuLangScheduled),
    ensures
        final(ir).wf(),
        final(ir).spec_n_ops() == 21,
        final(ir).spec_n_vals() == 22,
        forall|v: ValId, t: PipelineTypeSystem| typed(&*old(ir), v, t) ==> #[trigger] typed(&*final(ir), v, t),
        typed(&*final(ir), r.0, PipelineTypeSystem::MultiDopLang),
        typed(&*final(ir), r.1, PipelineTypeSystem::MultiHpuTrace),
        typed(&*final(ir), r.2, PipelineTypeSystem::MultiHpuStream),
        typed(&*final(ir), r.3, PipelineTypeSystem::MultiHpuAssembly),
{
    let ghost g0 = *ir;
    let rets = push_step(ir, PipelineInstructionSet::AllocateMultiDopLang, vec![multi_hpulang_scheduled, multi_hpu_config]);
    let multi_doplang = rets[0];
    let ghost g1 = *ir;
    let rets = push_step(ir, PipelineInstructionSet::TraceMultiHpuExecution, vec![multi_doplang, multi_hpu_config]);
    let multi_hpu_trace = rets[0];
    proof {
        lemma_typed_chain(&g0, &g1, &*ir);
    }
    let ghost g2 = *ir;
    let rets = push_step(ir, PipelineInstructionSet::GenerateMultiHpuStream, vec![multi_doplang]);
    let multi_hpu_stream = rets[0];
    proof {
        lemma_typed_chain(&g0, &g2, &*ir);
    }
    let ghost g3 = *ir;
    let rets = push_step(ir, PipelineInstructionSet::GenerateMultiHpuAssembly, vec![multi_doplang]);
    let multi_hpu_assembly = rets[0];
    proof {
        lemma_typed_chain(&g0, &g3, &*ir);
    }
    (multi_doplang, multi_hpu_trace, multi_hpu_stream, multi_hpu_assembly,)
}

fn build_multi_hpu(ir: &mut IR<PipelineLang>, ioplang: ValId, partitions: ValId) -> (r: (ValId, ValId, ValId, ValId, ValId, ValId, ValId, ValId,))
    requires
        old(ir).wf(),
        old(ir).spec_n_ops() == 14,
        old(ir).spec_n_vals() == 14,
        typed(&*old(ir), ioplang, PipelineTypeSystem::IopLang),
        typed(&*old(ir), partitions, PipelineTypeSystem::Partitions),
    ensures
        final(ir).wf(),
        final(ir).spec_n_ops() == 21,
        final(ir).spec_n_vals() == 22,
        forall|v: ValId, t: PipelineTypeSystem| typed(&*old(ir), v, t) ==> #[trigger] typed(&*final(ir), v, t),
        typed(&*final(ir), r.0, PipelineTypeSystem::MultiHpuConfig),
        typed(&*final(ir), r.1, PipelineTypeSystem::MultiHpuLangTranslated),
        typed(&*final(ir), r.2, PipelineTypeSystem::MultiHpuLocalities),
        typed(&*final(ir), r.3, PipelineTypeSystem::MultiHpuLangScheduled),
        typed(&*final(ir), r.4, PipelineTypeSystem::MultiDopLang),
        typed(&*final(ir), r.5, PipelineTypeSystem::MultiHpuTrace),
        typed(&*final(ir), r.6, PipelineTypeSystem::MultiHpuStream),
        typed(&*final(ir), r.7, PipelineTypeSystem::MultiHpuAssembly),
{
    let ghost g0 = *ir;
    let front = build_multi_front(ir, ioplang, partitions);
    let ghost g1 = *ir;
    let back = build_multi_back(ir, front.0, front.3);
    proof {
        lemma_typed_chain(&g0, &g1, &*ir);
    }
    (front.0, front.1, front.2, front.3, back.0, back.1, back.2, back.3,)
}

/// Builds the graph of compilation steps: one operation per step, one value per artifact.
pub fn build_pipeline() -> (r: (IR<PipelineLang>, ArtifactsValids))
    ensures
        r.0.wf(),
        r.0.spec_n_ops() == 21,
        r.1.typed_in(&r.0),
{
    let mut ir: IR<PipelineLang> = IR::empty();
    let (builder, hpu_config, ioplang, partitions, prototype, slack_drawing, pbs_metrics,) = build_commons(&mut ir);
    let ghost with_commons = ir;
    let (hpulang_translated, hpulang_scheduled, doplang, hpu_stream, hpu_trace, hpu_metrics, hpu_assembly,) = build_hpu(&mut ir, builder, hpu_config, ioplang, partitions, prototype, slack_drawing, pbs_metrics);
    let ghost with_hpu = ir;
    let (multi_hpu_config, multi_hpulang_translated, multi_hpu_localities, multi_hpulang_scheduled, multi_doplang, multi_hpu_trace, multi_hpu_stream, multi_hpu_assembly,) = build_multi_hpu(&mut ir, ioplang, partitions);
    proof {
        lemma_typed_chain(&with_commons, &with_hpu, &ir);
    }
    let valids = ArtifactsValids {
        builder,
        hpu_config,
        ioplang,
        partitions,
        prototype,
        slack_drawing,
        pbs_metrics,
        hpulang_translated,
        hpulang_scheduled,
        doplang,
        hpu_stream,
        hpu_trace,
        hpu_metrics,
        hpu_assembly,
        multi_hpu_config,
        multi_hpulang_translated,
        multi_hpu_localities,
        multi_hpulang_scheduled,
        multi_doplang,
        multi_hpu_trace,
        multi_hpu_stream,
        multi_hpu_assembly,
    };
    (ir, valids)
}

} // verus!
