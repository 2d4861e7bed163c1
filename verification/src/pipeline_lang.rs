//! Pipeline meta-dialect: values are compilation artifacts and instructions are the
//! compilation steps producing them.
use vstd::prelude::*;
use crate::ir::{Dialect, DialectInstructionSet, DialectTypeSystem, Signature};

verus! {

/// Pipeline branch a compilation step belongs to.
///
/// `Commons` marks the frontend steps shared by every target; `Hpu`, `MultiHpu`, and `Vm` mark
/// the steps specific to the single-HPU, multi-HPU, and software-VM backends respectively.
#[derive(Debug, Clone, Copy, PartialEq, Eq, Structural)]
pub enum Affinity {
    Commons,
    Hpu,
    MultiHpu,
    Vm,
}

/// Kinds of artifacts exchanged by the compilation steps.
#[derive(Debug, Clone, Copy, PartialEq, Eq, Hash, Structural)]
pub enum PipelineTypeSystem {
    Builder,
    HpuConfig,
    IopLang,
    Prototype,
    PbsMetrics,
    HpuLangTranslated,
    HpuLangScheduled,
    DopLang,
    HpuStream,
    HpuMetrics,
    HpuTrace,
    SlackDrawing,
    Partitions,
    HpuAssembly,
    MultiHpuConfig,
    MultiHpuLangTranslated,
    MultiHpuLocalities,
    MultiHpuLangScheduled,
    MultiDopLang,
    MultiHpuStream,
    MultiHpuTrace,
    MultiHpuAssembly,
}

impl DialectTypeSystem for PipelineTypeSystem {
    fn same_type(&self, other: &Self) -> (r: bool) {
        *self == *other
    }
}

/// Compilation steps of the pipeline.
#[derive(Debug, Clone, Copy, PartialEq, Eq, Hash, Structural)]
pub enum PipelineInstructionSet {
    InputBuilder,
    BuilderToIopLang,
    BuilderToPartitions,
    BuilderToPrototype,
    ComputePbsMetrics,
    DrawSlack,
    InputHpuConfig,
    IopLangToHpuLang,
    ScheduleHpuLang,
    AllocateDopLang,
    GenerateHpuStream,
    ComputeHpuMetrics,
    TraceHpuExecution,
    GenerateHpuAssembly,
    InputMultiHpuConfig,
    IopLangToMultiHpu,
    ScheduleMultiHpuLang,
    AllocateMultiDopLang,
    GenerateMultiHpuStream,
    TraceMultiHpuExecution,
    GenerateMultiHpuAssembly,
}

/// Dialect tag for the pipeline meta-language.
#[derive(Debug, Clone, PartialEq, Eq, Hash, Structural)]
pub struct PipelineLang;

impl Dialect for PipelineLang {
    type InstructionSet = PipelineInstructionSet;
}

impl PipelineInstructionSet {
    /// The artifact kinds a step reads.
    pub open spec fn spec_args(&self) -> Seq<PipelineTypeSystem> {
        match self {
            PipelineInstructionSet::InputBuilder => Seq::<PipelineTypeSystem>::empty(),
            PipelineInstructionSet::BuilderToIopLang => seq![PipelineTypeSystem::Builder],
            PipelineInstructionSet::BuilderToPartitions => seq![PipelineTypeSystem::Builder],
            PipelineInstructionSet::BuilderToPrototype => seq![PipelineTypeSystem::Builder],
            PipelineInstructionSet::ComputePbsMetrics => seq![PipelineTypeSystem::IopLang],
            PipelineInstructionSet::DrawSlack => seq![PipelineTypeSystem::IopLang],
            PipelineInstructionSet::InputHpuConfig => Seq::<PipelineTypeSystem>::empty(),
            PipelineInstructionSet::IopLangToHpuLang => seq![PipelineTypeSystem::IopLang],
            PipelineInstructionSet::ScheduleHpuLang => seq![PipelineTypeSystem::HpuLangTranslated, PipelineTypeSystem::HpuConfig],
            PipelineInstructionSet::AllocateDopLang => seq![PipelineTypeSystem::HpuLangScheduled, PipelineTypeSystem::HpuConfig],
            PipelineInstructionSet::GenerateHpuStream => seq![PipelineTypeSystem::DopLang],
            PipelineInstructionSet::ComputeHpuMetrics => seq![PipelineTypeSystem::DopLang, PipelineTypeSystem::HpuLangScheduled],
            PipelineInstructionSet::TraceHpuExecution => seq![PipelineTypeSystem::DopLang, PipelineTypeSystem::HpuConfig],
            PipelineInstructionSet::GenerateHpuAssembly => seq![PipelineTypeSystem::DopLang],
            PipelineInstructionSet::InputMultiHpuConfig => Seq::<PipelineTypeSystem>::empty(),
            PipelineInstructionSet::IopLangToMultiHpu => seq![PipelineTypeSystem::IopLang, PipelineTypeSystem::Partitions],
            PipelineInstructionSet::ScheduleMultiHpuLang => seq![PipelineTypeSystem::MultiHpuLangTranslated, PipelineTypeSystem::MultiHpuLocalities, PipelineTypeSystem::MultiHpuConfig],
            PipelineInstructionSet::AllocateMultiDopLang => seq![PipelineTypeSystem::MultiHpuLangScheduled, PipelineTypeSystem::MultiHpuConfig],
            PipelineInstructionSet::GenerateMultiHpuStream => seq![PipelineTypeSystem::MultiDopLang],
            PipelineInstructionSet::TraceMultiHpuExecution => seq![PipelineTypeSystem::MultiDopLang, PipelineTypeSystem::MultiHpuConfig],
            PipelineInstructionSet::GenerateMultiHpuAssembly => seq![PipelineTypeSystem::MultiDopLang],
        }
    }

    /// The artifact kinds a step produces.
    pub open spec fn spec_returns(&self) -> Seq<PipelineTypeSystem> {
        match self {
            PipelineInstructionSet::InputBuilder => seq![PipelineTypeSystem::Builder],
            PipelineInstructionSet::BuilderToIopLang => seq![PipelineTypeSystem::IopLang],
            PipelineInstructionSet::BuilderToPartitions => seq![PipelineTypeSystem::Partitions],
            PipelineInstructionSet::BuilderToPrototype => seq![PipelineTypeSystem::Prototype],
            PipelineInstructionSet::ComputePbsMetrics => seq![PipelineTypeSystem::PbsMetrics],
            PipelineInstructionSet::DrawSlack => seq![PipelineTypeSystem::SlackDrawing],
            PipelineInstructionSet::InputHpuConfig => seq![PipelineTypeSystem::HpuConfig],
            PipelineInstructionSet::IopLangToHpuLang => seq![PipelineTypeSystem::HpuLangTranslated],
            PipelineInstructionSet::ScheduleHpuLang => seq![PipelineTypeSystem::HpuLangScheduled],
            PipelineInstructionSet::AllocateDopLang => seq![PipelineTypeSystem::DopLang],
            PipelineInstructionSet::GenerateHpuStream => seq![PipelineTypeSystem::HpuStream],
            PipelineInstructionSet::ComputeHpuMetrics => seq![PipelineTypeSystem::HpuMetrics],
            PipelineInstructionSet::TraceHpuExecution => seq![PipelineTypeSystem::HpuTrace],
            PipelineInstructionSet::GenerateHpuAssembly => seq![PipelineTypeSystem::HpuAssembly],
            PipelineInstructionSet::InputMultiHpuConfig => seq![PipelineTypeSystem::MultiHpuConfig],
            PipelineInstructionSet::IopLangToMultiHpu => seq![PipelineTypeSystem::MultiHpuLangTranslated, PipelineTypeSystem::MultiHpuLocalities],
            PipelineInstructionSet::ScheduleMultiHpuLang => seq![PipelineTypeSystem::MultiHpuLangScheduled],
            PipelineInstructionSet::AllocateMultiDopLang => seq![PipelineTypeSystem::MultiDopLang],
            PipelineInstructionSet::GenerateMultiHpuStream => seq![PipelineTypeSystem::MultiHpuStream],
            PipelineInstructionSet::TraceMultiHpuExecution => seq![PipelineTypeSystem::MultiHpuTrace],
            PipelineInstructionSet::GenerateMultiHpuAssembly => seq![PipelineTypeSystem::MultiHpuAssembly],
        }
    }

    /// The pipeline branch of a step.
    pub open spec fn spec_affinity(&self) -> Affinity {
        match self {
            PipelineInstructionSet::InputBuilder => Affinity::Commons,
            PipelineInstructionSet::BuilderToIopLang => Affinity::Commons,
            PipelineInstructionSet::BuilderToPartitions => Affinity::Commons,
            PipelineInstructionSet::BuilderToPrototype => Affinity::Commons,
            PipelineInstructionSet::ComputePbsMetrics => Affinity::Commons,
            PipelineInstructionSet::DrawSlack => Affinity::Commons,
            PipelineInstructionSet::InputHpuConfig => Affinity::Hpu,
            PipelineInstructionSet::IopLangToHpuLang => Affinity::Hpu,
            PipelineInstructionSet::ScheduleHpuLang => Affinity::Hpu,
            PipelineInstructionSet::AllocateDopLang => Affinity::Hpu,
            PipelineInstructionSet::GenerateHpuStream => Affinity::Hpu,
            PipelineInstructionSet::ComputeHpuMetrics => Affinity::Hpu,
            PipelineInstructionSet::TraceHpuExecution => Affinity::Hpu,
            PipelineInstructionSet::GenerateHpuAssembly => Affinity::Hpu,
            PipelineInstructionSet::InputMultiHpuConfig => Affinity::MultiHpu,
            PipelineInstructionSet::IopLangToMultiHpu => Affinity::MultiHpu,
            PipelineInstructionSet::ScheduleMultiHpuLang => Affinity::MultiHpu,
            PipelineInstructionSet::AllocateMultiDopLang => Affinity::MultiHpu,
            PipelineInstructionSet::GenerateMultiHpuStream => Affinity::MultiHpu,
            PipelineInstructionSet::TraceMultiHpuExecution => Affinity::MultiHpu,
            PipelineInstructionSet::GenerateMultiHpuAssembly => Affinity::MultiHpu,
        }
    }

    /// The textual name of a step.
    pub open spec fn spec_name(&self) -> Seq<char> {
        match self {
            PipelineInstructionSet::InputBuilder => "input_builder"@,
            PipelineInstructionSet::BuilderToIopLang => "builder_to_iop_lang"@,
            PipelineInstructionSet::BuilderToPartitions => "builder_to_partitions"@,
            PipelineInstructionSet::BuilderToPrototype => "builder_to_prototype"@,
            PipelineInstructionSet::ComputePbsMetrics => "compute_pbs_metrics"@,
            PipelineInstructionSet::DrawSlack => "draw_slack"@,
            PipelineInstructionSet::InputHpuConfig => "input_hpu_config"@,
            PipelineInstructionSet::IopLangToHpuLang => "iop_lang_to_hpu_lang"@,
            PipelineInstructionSet::ScheduleHpuLang => "schedule_hpu_lang"@,
            PipelineInstructionSet::AllocateDopLang => "allocate_dop_lang"@,
            PipelineInstructionSet::GenerateHpuStream => "generate_hpu_stream"@,
            PipelineInstructionSet::ComputeHpuMetrics => "compute_hpu_metrics"@,
            PipelineInstructionSet::TraceHpuExecution => "trace_hpu_execution"@,
            PipelineInstructionSet::GenerateHpuAssembly => "generate_hpu_assembly"@,
            PipelineInstructionSet::InputMultiHpuConfig => "input_multi_hpu_config"@,
            PipelineInstructionSet::IopLangToMultiHpu => "iop_lang_to_multi_hpu"@,
            PipelineInstructionSet::ScheduleMultiHpuLang => "schedule_multi_hpu_lang"@,
            PipelineInstructionSet::AllocateMultiDopLang => "allocate_multi_dop_lang"@,
            PipelineInstructionSet::GenerateMultiHpuStream => "generate_multi_hpu_stream"@,
            PipelineInstructionSet::TraceMultiHpuExecution => "trace_multi_hpu_execution"@,
            PipelineInstructionSet::GenerateMultiHpuAssembly => "generate_multi_hpu_assembly"@,
        }
    }

    /// Returns the pipeline branch the step belongs to.
    pub fn get_affinity(&self) -> (r: Affinity)
        ensures
            r == self.spec_affinity(),
    {
        match self {
            PipelineInstructionSet::InputBuilder => Affinity::Commons,
            PipelineInstructionSet::BuilderToIopLang => Affinity::Commons,
            PipelineInstructionSet::BuilderToPartitions => Affinity::Commons,
            PipelineInstructionSet::BuilderToPrototype => Affinity::Commons,
            PipelineInstructionSet::ComputePbsMetrics => Affinity::Commons,
            PipelineInstructionSet::DrawSlack => Affinity::Commons,
            PipelineInstructionSet::InputHpuConfig => Affinity::Hpu,
            PipelineInstructionSet::IopLangToHpuLang => Affinity::Hpu,
            PipelineInstructionSet::ScheduleHpuLang => Affinity::Hpu,
            PipelineInstructionSet::AllocateDopLang => Affinity::Hpu,
            PipelineInstructionSet::GenerateHpuStream => Affinity::Hpu,
            PipelineInstructionSet::ComputeHpuMetrics => Affinity::Hpu,
            PipelineInstructionSet::TraceHpuExecution => Affinity::Hpu,
            PipelineInstructionSet::GenerateHpuAssembly => Affinity::Hpu,
            PipelineInstructionSet::InputMultiHpuConfig => Affinity::MultiHpu,
            PipelineInstructionSet::IopLangToMultiHpu => Affinity::MultiHpu,
            PipelineInstructionSet::ScheduleMultiHpuLang => Affinity::MultiHpu,
            PipelineInstructionSet::AllocateMultiDopLang => Affinity::MultiHpu,
            PipelineInstructionSet::GenerateMultiHpuStream => Affinity::MultiHpu,
            PipelineInstructionSet::TraceMultiHpuExecution => Affinity::MultiHpu,
            PipelineInstructionSet::GenerateMultiHpuAssembly => Affinity::MultiHpu,
        }
    }

    /// Returns the textual name of the step, as it is printed in an IR listing.
    pub fn name(&self) -> (r: &'static str)
        ensures
            r@ == self.spec_name(),
    {
        match self {
            PipelineInstructionSet::InputBuilder => "input_builder",
            PipelineInstructionSet::BuilderToIopLang => "builder_to_iop_lang",
            PipelineInstructionSet::BuilderToPartitions => "builder_to_partitions",
            PipelineInstructionSet::BuilderToPrototype => "builder_to_prototype",
            PipelineInstructionSet::ComputePbsMetrics => "compute_pbs_metrics",
            PipelineInstructionSet::DrawSlack => "draw_slack",
            PipelineInstructionSet::InputHpuConfig => "input_hpu_config",
            PipelineInstructionSet::IopLangToHpuLang => "iop_lang_to_hpu_lang",
            PipelineInstructionSet::ScheduleHpuLang => "schedule_hpu_lang",
            PipelineInstructionSet::AllocateDopLang => "allocate_dop_lang",
            PipelineInstructionSet::GenerateHpuStream => "generate_hpu_stream",
            PipelineInstructionSet::ComputeHpuMetrics => "compute_hpu_metrics",
            PipelineInstructionSet::TraceHpuExecution => "trace_hpu_execution",
            PipelineInstructionSet::GenerateHpuAssembly => "generate_hpu_assembly",
            PipelineInstructionSet::InputMultiHpuConfig => "input_multi_hpu_config",
            PipelineInstructionSet::IopLangToMultiHpu => "iop_lang_to_multi_hpu",
            PipelineInstructionSet::ScheduleMultiHpuLang => "schedule_multi_hpu_lang",
            PipelineInstructionSet::AllocateMultiDopLang => "allocate_multi_dop_lang",
            PipelineInstructionSet::GenerateMultiHpuStream => "generate_multi_hpu_stream",
            PipelineInstructionSet::TraceMultiHpuExecution => "trace_multi_hpu_execution",
            PipelineInstructionSet::GenerateMultiHpuAssembly => "generate_multi_hpu_assembly",
        }
    }
}

impl DialectInstructionSet for PipelineInstructionSet {
    type TypeSystem = PipelineTypeSystem;

    open spec fn spec_arg_types(&self) -> Seq<PipelineTypeSystem> {
        self.spec_args()
    }

    open spec fn spec_return_types(&self) -> Seq<PipelineTypeSystem> {
        self.spec_returns()
    }

    fn get_signature(&self) -> (r: Signature<PipelineTypeSystem>) {
        let (args, rets) = match self {
            PipelineInstructionSet::InputBuilder => (Vec::new(), vec![PipelineTypeSystem::Builder]),
            PipelineInstructionSet::BuilderToIopLang => (vec![PipelineTypeSystem::Builder], vec![PipelineTypeSystem::IopLang]),
            PipelineInstructionSet::BuilderToPartitions => (vec![PipelineTypeSystem::Builder], vec![PipelineTypeSystem::Partitions]),
            PipelineInstructionSet::BuilderToPrototype => (vec![PipelineTypeSystem::Builder], vec![PipelineTypeSystem::Prototype]),
            PipelineInstructionSet::ComputePbsMetrics => (vec![PipelineTypeSystem::IopLang], vec![PipelineTypeSystem::PbsMetrics]),
            PipelineInstructionSet::DrawSlack => (vec![PipelineTypeSystem::IopLang], vec![PipelineTypeSystem::SlackDrawing]),
            PipelineInstructionSet::InputHpuConfig => (Vec::new(), vec![PipelineTypeSystem::HpuConfig]),
            PipelineInstructionSet::IopLangToHpuLang => (vec![PipelineTypeSystem::IopLang], vec![PipelineTypeSystem::HpuLangTranslated]),
            PipelineInstructionSet::ScheduleHpuLang => (vec![PipelineTypeSystem::HpuLangTranslated, PipelineTypeSystem::HpuConfig], vec![PipelineTypeSystem::HpuLangScheduled]),
            PipelineInstructionSet::AllocateDopLang => (vec![PipelineTypeSystem::HpuLangScheduled, PipelineTypeSystem::HpuConfig], vec![PipelineTypeSystem::DopLang]),
            PipelineInstructionSet::GenerateHpuStream => (vec![PipelineTypeSystem::DopLang], vec![PipelineTypeSystem::HpuStream]),
            PipelineInstructionSet::ComputeHpuMetrics => (vec![PipelineTypeSystem::DopLang, PipelineTypeSystem::HpuLangScheduled], vec![PipelineTypeSystem::HpuMetrics]),
            PipelineInstructionSet::TraceHpuExecution => (vec![PipelineTypeSystem::DopLang, PipelineTypeSystem::HpuConfig], vec![PipelineTypeSystem::HpuTrace]),
            PipelineInstructionSet::GenerateHpuAssembly => (vec![PipelineTypeSystem::DopLang], vec![PipelineTypeSystem::HpuAssembly]),
            PipelineInstructionSet::InputMultiHpuConfig => (Vec::new(), vec![PipelineTypeSystem::MultiHpuConfig]),
            PipelineInstructionSet::IopLangToMultiHpu => (vec![PipelineTypeSystem::IopLang, PipelineTypeSystem::Partitions], vec![PipelineTypeSystem::MultiHpuLangTranslated, PipelineTypeSystem::MultiHpuLocalities]),
            PipelineInstructionSet::ScheduleMultiHpuLang => (vec![PipelineTypeSystem::MultiHpuLangTranslated, PipelineTypeSystem::MultiHpuLocalities, PipelineTypeSystem::MultiHpuConfig], vec![PipelineTypeSystem::MultiHpuLangScheduled]),
            PipelineInstructionSet::AllocateMultiDopLang => (vec![PipelineTypeSystem::MultiHpuLangScheduled, PipelineTypeSystem::MultiHpuConfig], vec![PipelineTypeSystem::MultiDopLang]),
            PipelineInstructionSet::GenerateMultiHpuStream => (vec![PipelineTypeSystem::MultiDopLang], vec![PipelineTypeSystem::MultiHpuStream]),
            PipelineInstructionSet::TraceMultiHpuExecution => (vec![PipelineTypeSystem::MultiDopLang, PipelineTypeSystem::MultiHpuConfig], vec![PipelineTypeSystem::MultiHpuTrace]),
            PipelineInstructionSet::GenerateMultiHpuAssembly => (vec![PipelineTypeSystem::MultiDopLang], vec![PipelineTypeSystem::MultiHpuAssembly]),
        };
        proof {
            assert(args@ =~= self.spec_args());
            assert(rets@ =~= self.spec_returns());
        }
        Signature(args, rets)
    }
}

/// The step producing each kind of artifact.
pub open spec fn producer(t: PipelineTypeSystem) -> PipelineInstructionSet {
    match t {
        PipelineTypeSystem::Builder => PipelineInstructionSet::InputBuilder,
        PipelineTypeSystem::HpuConfig => PipelineInstructionSet::InputHpuConfig,
        PipelineTypeSystem::IopLang => PipelineInstructionSet::BuilderToIopLang,
        PipelineTypeSystem::Prototype => PipelineInstructionSet::BuilderToPrototype,
        PipelineTypeSystem::PbsMetrics => PipelineInstructionSet::ComputePbsMetrics,
        PipelineTypeSystem::HpuLangTranslated => PipelineInstructionSet::IopLangToHpuLang,
        PipelineTypeSystem::HpuLangScheduled => PipelineInstructionSet::ScheduleHpuLang,
        PipelineTypeSystem::DopLang => PipelineInstructionSet::AllocateDopLang,
        PipelineTypeSystem::HpuStream => PipelineInstructionSet::GenerateHpuStream,
        PipelineTypeSystem::HpuMetrics => PipelineInstructionSet::ComputeHpuMetrics,
        PipelineTypeSystem::HpuTrace => PipelineInstructionSet::TraceHpuExecution,
        PipelineTypeSystem::SlackDrawing => PipelineInstructionSet::DrawSlack,
        PipelineTypeSystem::Partitions => PipelineInstructionSet::BuilderToPartitions,
        PipelineTypeSystem::HpuAssembly => PipelineInstructionSet::GenerateHpuAssembly,
        PipelineTypeSystem::MultiHpuConfig => PipelineInstructionSet::InputMultiHpuConfig,
        PipelineTypeSystem::MultiHpuLangTranslated => PipelineInstructionSet::IopLangToMultiHpu,
        PipelineTypeSystem::MultiHpuLocalities => PipelineInstructionSet::IopLangToMultiHpu,
        PipelineTypeSystem::MultiHpuLangScheduled => PipelineInstructionSet::ScheduleMultiHpuLang,
        PipelineTypeSystem::MultiDopLang => PipelineInstructionSet::AllocateMultiDopLang,
        PipelineTypeSystem::MultiHpuStream => PipelineInstructionSet::GenerateMultiHpuStream,
        PipelineTypeSystem::MultiHpuTrace => PipelineInstructionSet::TraceMultiHpuExecution,
        PipelineTypeSystem::MultiHpuAssembly => PipelineInstructionSet::GenerateMultiHpuAssembly,
    }
}

/// Each kind of artifact is produced by exactly one step.
pub proof fn lemma_unique_producer(step: PipelineInstructionSet, t: PipelineTypeSystem)
    ensures
        step.spec_returns().contains(t) <==> step == producer(t),
{
    match step {
        PipelineInstructionSet::InputBuilder => {
            assert(step.spec_returns()[0] == PipelineTypeSystem::Builder);
            if step.spec_returns().contains(t) {
                let j = choose|j: int| 0 <= j < step.spec_returns().len() && step.spec_returns()[j] == t;
            }
        },
        PipelineInstructionSet::BuilderToIopLang => {
            assert(step.spec_returns()[0] == PipelineTypeSystem::IopLang);
            if step.spec_returns().contains(t) {
                let j = choose|j: int| 0 <= j < step.spec_returns().len() && step.spec_returns()[j] == t;
            }
        },
        PipelineInstructionSet::BuilderToPartitions => {
            assert(step.spec_returns()[0] == PipelineTypeSystem::Partitions);
            if step.spec_returns().contains(t) {
                let j = choose|j: int| 0 <= j < step.spec_returns().len() && step.spec_returns()[j] == t;
            }
        },
        PipelineInstructionSet::BuilderToPrototype => {
            assert(step.spec_returns()[0] == PipelineTypeSystem::Prototype);
            if step.spec_returns().contains(t) {
                let j = choose|j: int| 0 <= j < step.spec_returns().len() && step.spec_returns()[j] == t;
            }
        },
        PipelineInstructionSet::ComputePbsMetrics => {
            assert(step.spec_returns()[0] == PipelineTypeSystem::PbsMetrics);
            if step.spec_returns().contains(t) {
                let j = choose|j: int| 0 <= j < step.spec_returns().len() && step.spec_returns()[j] == t;
            }
        },
        PipelineInstructionSet::DrawSlack => {
            assert(step.spec_returns()[0] == PipelineTypeSystem::SlackDrawing);
            if step.spec_returns().contains(t) {
                let j = choose|j: int| 0 <= j < step.spec_returns().len() && step.spec_returns()[j] == t;
            }
        },
        PipelineInstructionSet::InputHpuConfig => {
            assert(step.spec_returns()[0] == PipelineTypeSystem::HpuConfig);
            if step.spec_returns().contains(t) {
                let j = choose|j: int| 0 <= j < step.spec_returns().len() && step.spec_returns()[j] == t;
            }
        },
        PipelineInstructionSet::IopLangToHpuLang => {
            assert(step.spec_returns()[0] == PipelineTypeSystem::HpuLangTranslated);
            if step.spec_returns().contains(t) {
                let j = choose|j: int| 0 <= j < step.spec_returns().len() && step.spec_returns()[j] == t;
            }
        },
        PipelineInstructionSet::ScheduleHpuLang => {
            assert(step.spec_returns()[0] == PipelineTypeSystem::HpuLangScheduled);
            if step.spec_returns().contains(t) {
                let j = choose|j: int| 0 <= j < step.spec_returns().len() && step.spec_returns()[j] == t;
            }
        },
        PipelineInstructionSet::AllocateDopLang => {
            assert(step.spec_returns()[0] == PipelineTypeSystem::DopLang);
            if step.spec_returns().contains(t) {
                let j = choose|j: int| 0 <= j < step.spec_returns().len() && step.spec_returns()[j] == t;
            }
        },
        PipelineInstructionSet::GenerateHpuStream => {
            assert(step.spec_returns()[0] == PipelineTypeSystem::HpuStream);
            if step.spec_returns().contains(t) {
                let j = choose|j: int| 0 <= j < step.spec_returns().len() && step.spec_returns()[j] == t;
            }
        },
        PipelineInstructionSet::ComputeHpuMetrics => {
            assert(step.spec_returns()[0] == PipelineTypeSystem::HpuMetrics);
            if step.spec_returns().contains(t) {
                let j = choose|j: int| 0 <= j < step.spec_returns().len() && step.spec_returns()[j] == t;
            }
        },
        PipelineInstructionSet::TraceHpuExecution => {
            assert(step.spec_returns()[0] == PipelineTypeSystem::HpuTrace);
            if step.spec_returns().contains(t) {
                let j = choose|j: int| 0 <= j < step.spec_returns().len() && step.spec_returns()[j] == t;
            }
        },
        PipelineInstructionSet::GenerateHpuAssembly => {
            assert(step.spec_returns()[0] == PipelineTypeSystem::HpuAssembly);
            if step.spec_returns().contains(t) {
                let j = choose|j: int| 0 <= j < step.spec_returns().len() && step.spec_returns()[j] == t;
            }
        },
        PipelineInstructionSet::InputMultiHpuConfig => {
            assert(step.spec_returns()[0] == PipelineTypeSystem::MultiHpuConfig);
            if step.spec_returns().contains(t) {
                let j = choose|j: int| 0 <= j < step.spec_returns().len() && step.spec_returns()[j] == t;
            }
        },
        PipelineInstructionSet::IopLangToMultiHpu => {
            assert(step.spec_returns()[0] == PipelineTypeSystem::MultiHpuLangTranslated);
            assert(step.spec_returns()[1] == PipelineTypeSystem::MultiHpuLocalities);
            if step.spec_returns().contains(t) {
                let j = choose|j: int| 0 <= j < step.spec_returns().len() && step.spec_returns()[j] == t;
            }
        },
        PipelineInstructionSet::ScheduleMultiHpuLang => {
            assert(step.spec_returns()[0] == PipelineTypeSystem::MultiHpuLangScheduled);
            if step.spec_returns().contains(t) {
                let j = choose|j: int| 0 <= j < step.spec_returns().len() && step.spec_returns()[j] == t;
            }
        },
        PipelineInstructionSet::AllocateMultiDopLang => {
            assert(step.spec_returns()[0] == PipelineTypeSystem::MultiDopLang);
            if step.spec_returns().contains(t) {
                let j = choose|j: int| 0 <= j < step.spec_returns().len() && step.spec_returns()[j] == t;
            }
        },
        PipelineInstructionSet::GenerateMultiHpuStream => {
            assert(step.spec_returns()[0] == PipelineTypeSystem::MultiHpuStream);
            if step.spec_returns().contains(t) {
                let j = choose|j: int| 0 <= j < step.spec_returns().len() && step.spec_returns()[j] == t;
            }
        },
        PipelineInstructionSet::TraceMultiHpuExecution => {
            assert(step.spec_returns()[0] == PipelineTypeSystem::MultiHpuTrace);
            if step.spec_returns().contains(t) {
                let j = choose|j: int| 0 <= j < step.spec_returns().len() && step.spec_returns()[j] == t;
            }
        },
        PipelineInstructionSet::GenerateMultiHpuAssembly => {
            assert(step.spec_returns()[0] == PipelineTypeSystem::MultiHpuAssembly);
            if step.spec_returns().contains(t) {
                let j = choose|j: int| 0 <= j < step.spec_returns().len() && step.spec_returns()[j] == t;
            }
        },
    }
}

/// The single-board and the multi-board flows are separate: every step reads only artifacts
/// produced by the shared frontend or by steps of its own branch.
pub proof fn lemma_branches_separate(step: PipelineInstructionSet, k: int)
    requires
        0 <= k < step.spec_args().len(),
    ensures
        producer(step.spec_args()[k]).spec_affinity() == Affinity::Commons
            || producer(step.spec_args()[k]).spec_affinity() == step.spec_affinity(),
{
}

} // verus!
