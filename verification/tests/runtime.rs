use zhc::bench::{all_bits, center_padding, group_digits, latest_baseline, op_column_width, Filters};
use zhc::compat::Iop;
use zhc::locality::{HpuId, TransferId};
use zhc::multi_hpu::{Events, HpuEvents, MultiHpu, MultiHpuConfig, Routing, DEFAULT_N_HPUS};
use zhc::pipeline_context::PipelineContext;
use zhc::statistics::Statistics;

fn args(list: &[&str]) -> Vec<String> {
    list.iter().map(|s| s.to_string()).collect()
}

#[test]
fn filters_default_to_everything() {
    let (filters, rest) = Filters::parse(&args(&["run", "--fast"]));
    assert_eq!(filters.iops, Iop::all());
    assert_eq!(filters.bits, all_bits());
    assert_eq!(filters.bits, vec![8, 16, 32, 64, 128]);
    assert_eq!(rest, args(&["run", "--fast"]));
}

#[test]
fn filters_select_by_substring_and_width() {
    let (filters, rest) =
        Filters::parse(&args(&["latency", "-i", " ADD , cmp_", "--bits", "64, 8 ,x", "--iops=Lead", "--bits=999,128", "tail"]));
    // "cmp_" matches no lowercase name: names carry no underscore.
    assert_eq!(filters.iops, vec![Iop::Add, Iop::LeadingZeros, Iop::LeadingOnes]);
    // Widths come out in the default order, unknown ones dropped.
    assert_eq!(filters.bits, vec![8, 64, 128]);
    assert_eq!(rest, args(&["latency", "tail"]));
}

#[test]
fn filters_option_without_value_is_ignored() {
    let (filters, rest) = Filters::parse(&args(&["x", "-b"]));
    assert_eq!(filters.bits, all_bits());
    assert_eq!(rest, args(&["x"]));
    let (filters, rest) = Filters::parse(&args(&["--iops"]));
    assert_eq!(filters.iops, Iop::all());
    assert!(rest.is_empty());
}

#[test]
fn filters_with_no_matching_width_select_none() {
    let (filters, _) = Filters::parse(&args(&["-b", "7,9"]));
    assert!(filters.bits.is_empty());
    let (filters, _) = Filters::parse(&args(&["-i", "cmp"]));
    assert_eq!(
        filters.iops,
        vec![Iop::CmpGt, Iop::CmpGte, Iop::CmpLt, Iop::CmpLte, Iop::CmpEq, Iop::CmpNeq]
    );
}

#[test]
fn filters_from_parts() {
    let f = Filters::from_parts(&vec!["zero".to_string()], &vec![32]);
    assert_eq!(f.iops, vec![Iop::IfThenZero, Iop::CountZeros, Iop::LeadingZeros, Iop::TrailingZeros]);
    assert_eq!(f.bits, vec![32]);
}

type Ev = Events<u32, ()>;

#[test]
fn router_forwards_and_intercepts() {
    let config = MultiHpuConfig { hpu_config: "board", n_hpus: 2 };
    let mut router = MultiHpu::new(&config, 150);
    let r = router.handle::<u32, ()>(Events::Hpu(HpuId(0), HpuEvents::UCoreTransferOutReady(HpuId(1), TransferId(7))));
    assert_eq!(
        r,
        vec![Routing::DispatchAfter(150, Events::Hpu(HpuId(1), HpuEvents::UCoreTransferInNotified(TransferId(7))))]
    );
    let r = router.handle::<u32, ()>(Events::Hpu(HpuId(1), HpuEvents::IscRetireDOp(4)));
    assert_eq!(r, vec![Routing::Deliver(HpuId(1), HpuEvents::IscRetireDOp(4))]);
    let r = router.handle::<u32, ()>(Events::ProcessOver);
    assert!(r.is_empty());
}

#[test]
fn router_pushes_one_stream_per_board() {
    let config = MultiHpuConfig { hpu_config: (), n_hpus: 3 };
    let mut router = MultiHpu::new(&config, 0);
    let r = router.handle::<u32, ()>(Events::PushDOps(vec![vec![1, 2], vec![], vec![3]]));
    assert_eq!(
        r,
        vec![
            Routing::DispatchNow(Events::Hpu(HpuId(0), HpuEvents::UCorePushDOps(vec![1, 2]))),
            Routing::DispatchNow(Events::Hpu(HpuId(1), HpuEvents::UCorePushDOps(vec![]))),
            Routing::DispatchNow(Events::Hpu(HpuId(2), HpuEvents::UCorePushDOps(vec![3]))),
        ]
    );
}

#[test]
fn router_reports_completion_once() {
    let config = MultiHpuConfig::with_default_count(());
    assert_eq!(config.n_hpus, DEFAULT_N_HPUS);
    assert_eq!(DEFAULT_N_HPUS, 4);
    let mut router = MultiHpu::new(&config, 10);
    let mut over = 0;
    for step in 0..6 {
        let r = router.handle::<u32, ()>(Events::Hpu(HpuId(step % 4), HpuEvents::UCoreStarved));
        let n = r.iter().filter(|x| **x == Routing::<u32, ()>::DispatchNow(Ev::ProcessOver)).count();
        if step == 3 {
            assert_eq!(n, 1);
        } else {
            assert_eq!(n, 0);
        }
        over += n;
    }
    assert_eq!(over, 1);
}

#[test]
fn router_counts_each_board_once() {
    let config = MultiHpuConfig { hpu_config: (), n_hpus: 3 };
    let mut router = MultiHpu::new(&config, 10);
    for _ in 0..5 {
        let r = router.handle::<u32, ()>(Events::Hpu(HpuId(1), HpuEvents::UCoreStarved));
        assert!(r.is_empty());
    }
    assert!(router.handle::<u32, ()>(Events::Hpu(HpuId(7), HpuEvents::UCoreStarved)).is_empty());
    assert!(router.handle::<u32, ()>(Events::Hpu(HpuId(0), HpuEvents::UCoreStarved)).is_empty());
    let r = router.handle::<u32, ()>(Events::Hpu(HpuId(2), HpuEvents::UCoreStarved));
    assert_eq!(r, vec![Routing::DispatchNow(Events::ProcessOver)]);
    assert!(router.handle::<u32, ()>(Events::Hpu(HpuId(2), HpuEvents::UCoreStarved)).is_empty());
}

#[test]
fn router_with_no_board_never_completes() {
    let config = MultiHpuConfig { hpu_config: (), n_hpus: 0 };
    let mut router = MultiHpu::new(&config, 10);
    let r = router.handle::<u32, ()>(Events::Hpu(HpuId(0), HpuEvents::UCoreStarved));
    assert!(r.is_empty());
}

#[test]
fn statistics_count_activity() {
    let mut s: Statistics<u32> = Statistics::new();
    s.handle::<()>(5, HpuEvents::IscRetireDOp(11));
    s.handle::<()>(6, HpuEvents::NotifyStartOnTimeout);
    s.handle::<()>(10, HpuEvents::PePbsLaunchProcessing(8));
    assert_eq!(s.pbs_launched_at, Some(10));
    s.handle::<()>(25, HpuEvents::PePbsLandProcessing);
    assert_eq!(s.pbs_launched_at, None);
    s.handle::<()>(30, HpuEvents::PePbsLaunchProcessing(3));
    s.handle::<()>(31, HpuEvents::IscRetireDOp(12));
    s.handle::<()>(40, HpuEvents::PePbsLandProcessing);
    s.handle::<()>(41, HpuEvents::Other(()));
    s.handle::<()>(42, HpuEvents::UCoreStarved);
    assert_eq!(s.dops, vec![11, 12]);
    assert_eq!(s.timeouts, 1);
    assert_eq!(s.pbs_batches, 2);
    assert_eq!(s.pbs_slots_filled, 11);
    assert_eq!(s.pbs_busy, 15 + 10);
}

#[test]
fn context_inputs() {
    let ctx: PipelineContext<&str, u8, u16> = PipelineContext::new();
    assert!(ctx.builder.is_none() && ctx.hpu_config.is_none() && ctx.multi_hpu_config.is_none());
    assert!(!ctx.legacy_hpu_scheduler && !ctx.hpu_trace_events);
    let ctx = ctx.with_builder("circuit").with_hpu_config(3).with_legacy_hpu_scheduler().with_trace_hpu_events();
    assert_eq!(ctx.builder, Some("circuit"));
    assert_eq!(ctx.hpu_config, Some(3));
    assert!(ctx.multi_hpu_config.is_none());
    assert!(ctx.legacy_hpu_scheduler && ctx.hpu_trace_events);
    let multi: PipelineContext<&str, u8, u16> = PipelineContext::new().with_multi_hpu_config(4);
    assert_eq!(multi.multi_hpu_config, Some(4));
    assert!(multi.hpu_config.is_none());
}

#[test]
fn digit_grouping() {
    assert_eq!(group_digits(0), "0");
    assert_eq!(group_digits(999), "999");
    assert_eq!(group_digits(1000), "1 000");
    assert_eq!(group_digits(1234567), "1 234 567");
    assert_eq!(group_digits(100200), "100 200");
    assert_eq!(group_digits(u64::MAX), "18 446 744 073 709 551 615");
}

#[test]
fn operation_column_width() {
    assert_eq!(op_column_width(&vec![]), 11);
    assert_eq!(op_column_width(&vec![Iop::Add, Iop::Mul]), 11);
    assert_eq!(op_column_width(&vec![Iop::Add, Iop::TrailingZeros, Iop::Div]), 15);
    assert_eq!(op_column_width(&Iop::all()), 15);
}

#[test]
fn baseline_selection_skips_the_current_commit() {
    let commits = vec!["abc1234ff".to_string(), "def5678aa".to_string(), "abc1234".to_string()];
    assert_eq!(latest_baseline(&commits, "abc1234"), Some(1));
    assert_eq!(latest_baseline(&commits, "def5678"), Some(2));
    assert_eq!(latest_baseline(&commits, "0123456"), Some(2));
    assert_eq!(latest_baseline(&vec!["abc".to_string()], "abc1234"), None);
    assert_eq!(latest_baseline(&vec![], "abc"), None);
}

#[test]
fn cell_centering() {
    assert_eq!(center_padding(8, 5), (1, 2));
    assert_eq!(center_padding(8, 4), (2, 2));
    assert_eq!(center_padding(8, 8), (0, 0));
    assert_eq!(center_padding(8, 12), (0, 0));
}
