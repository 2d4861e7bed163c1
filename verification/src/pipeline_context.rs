//! Inputs of a compilation: the circuit, the target configuration and the compilation options.
//!
//! A compilation targets either a single board or a multi-board system, never both: the two
//! configurations are mutually exclusive, and declaring one once the other is set is refused.
use vstd::prelude::*;

verus! {

/// The inputs declared for a compilation: `B` is the circuit, `H` a single-board configuration
/// and `M` a multi-board one.
#[derive(Debug)]
pub struct PipelineContext<B, H, M> {
    /// The circuit to compile.
    pub builder: Option<B>,
    /// The single board to compile for.
    pub hpu_config: Option<H>,
    /// The multi-board system to compile for.
    pub multi_hpu_config: Option<M>,
    /// Whether the single-board flow schedules with the legacy scheduler.
    pub legacy_hpu_scheduler: bool,
    /// Whether execution traces record the individual events of the simulated device.
    pub hpu_trace_events: bool,
}

impl<B, H, M> PipelineContext<B, H, M> {
    /// At most one target configuration is set.
    pub open spec fn wf(&self) -> bool {
        !(self.hpu_config is Some && self.multi_hpu_config is Some)
    }

    /// A context with no circuit, no target configuration and the default options.
    pub fn new() -> (r: Self)
        ensures
            r.builder is None,
            r.hpu_config is None,
            r.multi_hpu_config is None,
            !r.legacy_hpu_scheduler,
            !r.hpu_trace_events,
            r.wf(),
    {
        PipelineContext {
            builder: None,
            hpu_config: None,
            multi_hpu_config: None,
            legacy_hpu_scheduler: false,
            hpu_trace_events: false,
        }
    }

    /// Sets the circuit to compile, in place of any earlier one.
    pub fn with_builder(self, builder: B) -> (r: Self)
        ensures
            r == (PipelineContext { builder: Some(builder), ..self }),
    {
        PipelineContext { builder: Some(builder), ..self }
    }

    /// Selects the single-board flow, compiling for the board `config` describes; refused once a
    /// multi-board configuration is set.
    pub fn with_hpu_config(self, config: H) -> (r: Self)
        requires
            self.multi_hpu_config is None,
        ensures
            r == (PipelineContext { hpu_config: Some(config), ..self }),
            r.wf(),
    {
        PipelineContext { hpu_config: Some(config), ..self }
    }

    /// Selects the multi-board flow, compiling for the system `config` describes; refused once a
    /// single-board configuration is set.
    pub fn with_multi_hpu_config(self, config: M) -> (r: Self)
        requires
            self.hpu_config is None,
        ensures
            r == (PipelineContext { multi_hpu_config: Some(config), ..self }),
            r.wf(),
    {
        PipelineContext { multi_hpu_config: Some(config), ..self }
    }

    /// Selects the legacy scheduler for the single-board flow.
    pub fn with_legacy_hpu_scheduler(self) -> (r: Self)
        ensures
            r == (PipelineContext { legacy_hpu_scheduler: true, ..self }),
    {
        PipelineContext { legacy_hpu_scheduler: true, ..self }
    }

    /// Records the individual events of the simulated device in the execution traces.
    pub fn with_trace_hpu_events(self) -> (r: Self)
        ensures
            r == (PipelineContext { hpu_trace_events: true, ..self }),
    {
        PipelineContext { hpu_trace_events: true, ..self }
    }
}

} // verus!
