use chainloader::controller::Phase;
use chainloader::errors::FatalError;
use chainloader::pipeline::{run, LoadVariant, Step, VolumeModel};

fn healthy(has_file: bool) -> VolumeModel {
    VolumeModel {
        open_ok: true,
        render_ok: true,
        query_ok: true,
        has_file,
        prepare_ok: true,
        load_ok: true,
        start_ok: true,
    }
}

fn countdown() -> Vec<Step> {
    vec![
        Step::Announce { remaining: 3 },
        Step::Stall { seconds: 1 },
        Step::Announce { remaining: 2 },
        Step::Stall { seconds: 1 },
        Step::Announce { remaining: 1 },
        Step::Stall { seconds: 1 },
    ]
}

fn inspect_count(trace: &[Step]) -> usize {
    trace.iter().filter(|s| matches!(s, Step::Inspect { .. })).count()
}

fn fatal_count(trace: &[Step]) -> usize {
    trace.iter().filter(|s| matches!(s, Step::Fatal { .. })).count()
}

fn load_count(trace: &[Step]) -> usize {
    trace.iter().filter(|s| matches!(s, Step::Load { .. })).count()
}

#[test]
fn second_of_three_volumes_wins_and_third_is_never_inspected() {
    let volumes = vec![healthy(false), healthy(true), healthy(true)];
    let (trace, c) = run(true, true, &volumes, LoadVariant::FromPath);
    let mut expected = vec![
        Step::Inspect { index: 0 },
        Step::Absent { index: 0 },
        Step::Inspect { index: 1 },
        Step::Found { index: 1 },
    ];
    expected.extend(countdown());
    expected.push(Step::Load { index: 1 });
    expected.push(Step::Start { index: 1 });
    assert_eq!(trace, expected);
    assert_eq!(c.phase, Phase::Handoff { index: 1 });
    assert_eq!(inspect_count(&trace), 2);
    assert!(!trace.contains(&Step::Inspect { index: 2 }));
    assert_eq!(fatal_count(&trace), 0);
}

#[test]
fn no_volumes_means_immediate_not_found_with_zero_inspections() {
    let volumes: Vec<VolumeModel> = vec![];
    let (trace, c) = run(true, true, &volumes, LoadVariant::FromPath);
    assert_eq!(trace, vec![Step::Fatal { error: FatalError::NotFound }]);
    assert_eq!(c.phase, Phase::Halted { error: FatalError::NotFound });
    assert_eq!(inspect_count(&trace), 0);
}

#[test]
fn unique_match_is_selected_wherever_it_sits() {
    for k in 0..3 {
        let volumes: Vec<VolumeModel> = (0..3).map(|i| healthy(i == k)).collect();
        let (trace, c) = run(true, true, &volumes, LoadVariant::FromPath);
        assert_eq!(c.phase, Phase::Handoff { index: k });
        assert!(trace.contains(&Step::Load { index: k }));
        assert_eq!(fatal_count(&trace), 0);
    }
}

#[test]
fn no_match_reaches_not_found_and_never_loads() {
    let volumes = vec![healthy(false), healthy(false), healthy(false)];
    let (trace, c) = run(true, true, &volumes, LoadVariant::FromPath);
    assert_eq!(c.phase, Phase::Halted { error: FatalError::NotFound });
    assert_eq!(load_count(&trace), 0);
    assert_eq!(inspect_count(&trace), 3);
    assert_eq!(trace.last(), Some(&Step::Fatal { error: FatalError::NotFound }));
}

#[test]
fn countdown_runs_in_full_immediately_before_any_load() {
    let volumes = vec![healthy(false), healthy(false), healthy(true)];
    let (trace, _) = run(true, true, &volumes, LoadVariant::FromPath);
    let p = trace
        .iter()
        .position(|s| matches!(s, Step::Load { .. }))
        .expect("a healthy match must load");
    assert!(p >= 6);
    assert_eq!(trace[p - 6..p].to_vec(), countdown());
}

#[test]
fn init_failure_halts_with_one_fatal_report() {
    let volumes = vec![healthy(true)];
    let (trace, c) = run(false, true, &volumes, LoadVariant::FromPath);
    assert_eq!(trace, vec![Step::Fatal { error: FatalError::Init }]);
    assert_eq!(c.phase, Phase::Halted { error: FatalError::Init });
}

#[test]
fn enumeration_failure_halts_with_one_fatal_report() {
    let volumes = vec![healthy(true)];
    let (trace, c) = run(true, false, &volumes, LoadVariant::FromPath);
    assert_eq!(trace, vec![Step::Fatal { error: FatalError::Enumeration }]);
    assert_eq!(c.phase, Phase::Halted { error: FatalError::Enumeration });
}

#[test]
fn capability_open_failure_aborts_the_whole_scan() {
    let mut bad = healthy(false);
    bad.open_ok = false;
    let volumes = vec![healthy(false), bad, healthy(true)];
    let (trace, c) = run(true, true, &volumes, LoadVariant::FromPath);
    assert_eq!(
        trace,
        vec![
            Step::Inspect { index: 0 },
            Step::Absent { index: 0 },
            Step::Inspect { index: 1 },
            Step::Fatal { error: FatalError::CapabilityOpen },
        ]
    );
    assert_eq!(c.phase, Phase::Halted { error: FatalError::CapabilityOpen });
    assert_eq!(fatal_count(&trace), 1);
}

#[test]
fn identity_render_failure_halts_like_a_capability_failure() {
    let mut bad = healthy(false);
    bad.render_ok = false;
    let volumes = vec![bad];
    let (trace, c) = run(true, true, &volumes, LoadVariant::FromPath);
    assert_eq!(
        trace,
        vec![
            Step::Inspect { index: 0 },
            Step::Fatal { error: FatalError::PathRender },
        ]
    );
    assert_eq!(c.phase, Phase::Halted { error: FatalError::PathRender });
}

#[test]
fn existence_check_failure_halts_the_scan() {
    let mut bad = healthy(false);
    bad.query_ok = false;
    let volumes = vec![bad, healthy(true)];
    let (trace, c) = run(true, true, &volumes, LoadVariant::FromPath);
    assert_eq!(
        trace,
        vec![
            Step::Inspect { index: 0 },
            Step::Fatal { error: FatalError::FilesystemQuery },
        ]
    );
    assert_eq!(c.phase, Phase::Halted { error: FatalError::FilesystemQuery });
}

#[test]
fn path_build_failure_halts_in_the_path_variant() {
    let mut bad = healthy(true);
    bad.prepare_ok = false;
    let volumes = vec![bad];
    let (trace, c) = run(true, true, &volumes, LoadVariant::FromPath);
    assert_eq!(
        trace,
        vec![
            Step::Inspect { index: 0 },
            Step::Found { index: 0 },
            Step::Fatal { error: FatalError::PathBuild },
        ]
    );
    assert_eq!(c.phase, Phase::Halted { error: FatalError::PathBuild });
}

#[test]
fn file_read_failure_halts_in_the_bytes_variant() {
    let mut bad = healthy(true);
    bad.prepare_ok = false;
    let volumes = vec![bad];
    let (trace, c) = run(true, true, &volumes, LoadVariant::FromBytes);
    assert_eq!(trace.last(), Some(&Step::Fatal { error: FatalError::FileRead }));
    assert_eq!(c.phase, Phase::Halted { error: FatalError::FileRead });
    assert_eq!(fatal_count(&trace), 1);
}

#[test]
fn load_failure_halts_after_the_countdown_without_loading() {
    let mut bad = healthy(true);
    bad.load_ok = false;
    let volumes = vec![bad];
    let (trace, c) = run(true, true, &volumes, LoadVariant::FromPath);
    let mut expected = vec![Step::Inspect { index: 0 }, Step::Found { index: 0 }];
    expected.extend(countdown());
    expected.push(Step::Fatal { error: FatalError::Load });
    assert_eq!(trace, expected);
    assert_eq!(c.phase, Phase::Halted { error: FatalError::Load });
    assert_eq!(load_count(&trace), 0);
}

#[test]
fn start_failure_halts_after_the_start_attempt() {
    let mut bad = healthy(true);
    bad.start_ok = false;
    let volumes = vec![bad];
    let (trace, c) = run(true, true, &volumes, LoadVariant::FromPath);
    assert_eq!(trace.last(), Some(&Step::Fatal { error: FatalError::Start }));
    assert!(trace.contains(&Step::Load { index: 0 }));
    assert!(trace.contains(&Step::Start { index: 0 }));
    assert_eq!(c.phase, Phase::Halted { error: FatalError::Start });
    assert_eq!(fatal_count(&trace), 1);
}

#[test]
fn every_failing_world_reports_exactly_one_fatal_message() {
    let worlds: Vec<(bool, bool, Vec<VolumeModel>)> = vec![
        (false, true, vec![healthy(true)]),
        (true, false, vec![healthy(true)]),
        (true, true, vec![]),
        (true, true, vec![healthy(false)]),
        (true, true, {
            let mut v = healthy(true);
            v.load_ok = false;
            vec![v]
        }),
    ];
    for (init_ok, enumeration_ok, volumes) in worlds {
        let (trace, c) = run(init_ok, enumeration_ok, &volumes, LoadVariant::FromPath);
        assert_eq!(fatal_count(&trace), 1);
        assert!(matches!(c.phase, Phase::Halted { .. }));
        assert!(matches!(trace.last(), Some(Step::Fatal { .. })));
    }
}
