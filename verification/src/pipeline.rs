use vstd::prelude::*;
use crate::controller::{Controller, Event, Phase};
use crate::countdown::countdown_plan;
use crate::errors::FatalError;
use crate::path_id::DevicePathIdentity;

verus! {

/// Which of the two mutually exclusive image-source designs a deployment
/// uses: hand the firmware the file's full device path, or read the file and
/// hand the firmware its bytes.
#[derive(Clone, Copy, Debug, PartialEq, Eq, Structural)]
pub enum LoadVariant {
    FromPath,
    FromBytes,
}

/// The source handed to the image loader: exactly one of the file's bytes or
/// its fully-resolved device path identity, never both and never neither.
pub enum LoadSource {
    Bytes { image: Vec<u8> },
    Path { identity: DevicePathIdentity },
}

impl LoadSource {
    /// Which design this source belongs to.
    pub fn variant(&self) -> (r: LoadVariant)
        ensures
            r == (match self {
                LoadSource::Bytes { .. } => LoadVariant::FromBytes,
                LoadSource::Path { .. } => LoadVariant::FromPath,
            }),
    {
        match self {
            LoadSource::Bytes { .. } => LoadVariant::FromBytes,
            LoadSource::Path { .. } => LoadVariant::FromPath,
        }
    }
}

/// The error a failed source preparation propagates: building the file's
/// device path in the path design, reading the file in the bytes design.
pub open spec fn prepare_error(variant: LoadVariant) -> FatalError {
    match variant {
        LoadVariant::FromPath => FatalError::PathBuild,
        LoadVariant::FromBytes => FatalError::FileRead,
    }
}

/// What the firmware world does for one enumerated volume, as plain values:
/// whether each stage of handling this volume would succeed, and whether the
/// target file is present. This is the whole input the pipeline's decisions
/// depend on.
#[derive(Clone, Copy, Debug, PartialEq, Eq, Structural)]
pub struct VolumeModel {
    /// Opening the volume's capabilities succeeds.
    pub open_ok: bool,
    /// Rendering the volume's identity to text succeeds.
    pub render_ok: bool,
    /// The existence check answers (with `has_file`).
    pub query_ok: bool,
    /// The target file is present on this volume.
    pub has_file: bool,
    /// Preparing the load source for this volume's file succeeds.
    pub prepare_ok: bool,
    /// The firmware can materialize the image.
    pub load_ok: bool,
    /// Starting the image transfers control (and so never returns).
    pub start_ok: bool,
}

impl VolumeModel {
    /// Every per-volume stage up to the existence check answers.
    pub open spec fn healthy(self) -> bool {
        self.open_ok && self.render_ok && self.query_ok
    }

    /// Every stage of handing off to this volume succeeds as well.
    pub open spec fn handoff_ok(self) -> bool {
        self.prepare_ok && self.load_ok && self.start_ok
    }
}

/// One observable step of a pipeline run, in order: the per-volume probes,
/// the countdown announcements and stalls, the load and start of the image,
/// and at most one final fatal report.
#[derive(Clone, Copy, Debug, PartialEq, Eq, Structural)]
pub enum Step {
    /// Volume `index` had its capabilities opened and identity logged.
    Inspect { index: usize },
    /// Volume `index` does not hold the target file.
    Absent { index: usize },
    /// Volume `index` holds the target file.
    Found { index: usize },
    /// A countdown line: `remaining` seconds to handoff.
    Announce { remaining: u8 },
    /// A cooperative stall of `seconds`.
    Stall { seconds: u64 },
    /// The image of volume `index` was materialized.
    Load { index: usize },
    /// Control was transferred to the image of volume `index`.
    Start { index: usize },
    /// The single fatal report before the terminal idle spin.
    Fatal { error: FatalError },
}

/// The six observable countdown steps: three announcements, each followed by
/// one stall of the same fixed duration.
pub open spec fn countdown_steps() -> Seq<Step> {
    seq![
        Step::Announce { remaining: 3 },
        Step::Stall { seconds: 1 },
        Step::Announce { remaining: 2 },
        Step::Stall { seconds: 1 },
        Step::Announce { remaining: 1 },
        Step::Stall { seconds: 1 },
    ]
}

/// The steps observed from finding the target on volume `index` onwards.
pub open spec fn match_trace(v: VolumeModel, index: int, variant: LoadVariant) -> Seq<Step> {
    seq![Step::Found { index: index as usize }] + (if !v.prepare_ok {
        seq![Step::Fatal { error: prepare_error(variant) }]
    } else {
        countdown_steps() + (if !v.load_ok {
            seq![Step::Fatal { error: FatalError::Load }]
        } else {
            seq![
                Step::Load { index: index as usize },
                Step::Start { index: index as usize },
            ] + (if v.start_ok {
                Seq::<Step>::empty()
            } else {
                seq![Step::Fatal { error: FatalError::Start }]
            })
        })
    })
}

/// The terminal phase reached from finding the target on volume `index`.
pub open spec fn match_outcome(v: VolumeModel, index: int, variant: LoadVariant) -> Phase {
    if !v.prepare_ok {
        Phase::Halted { error: prepare_error(variant) }
    } else if !v.load_ok {
        Phase::Halted { error: FatalError::Load }
    } else if !v.start_ok {
        Phase::Halted { error: FatalError::Start }
    } else {
        Phase::Handoff { index: index as usize }
    }
}

/// The steps observed while scanning `vols`, which sit at positions
/// `base`, `base + 1`, ... of the enumeration order.
pub open spec fn scan_trace(vols: Seq<VolumeModel>, base: int, variant: LoadVariant) -> Seq<
    Step,
>
    decreases vols.len(),
{
    if vols.len() == 0 {
        seq![Step::Fatal { error: FatalError::NotFound }]
    } else {
        let v = vols[0];
        seq![Step::Inspect { index: base as usize }] + (if !v.open_ok {
            seq![Step::Fatal { error: FatalError::CapabilityOpen }]
        } else if !v.render_ok {
            seq![Step::Fatal { error: FatalError::PathRender }]
        } else if !v.query_ok {
            seq![Step::Fatal { error: FatalError::FilesystemQuery }]
        } else if v.has_file {
            match_trace(v, base, variant)
        } else {
            seq![Step::Absent { index: base as usize }] + scan_trace(
                vols.skip(1),
                base + 1,
                variant,
            )
        })
    }
}

/// The terminal phase of scanning `vols` from position `base` on.
pub open spec fn scan_outcome(vols: Seq<VolumeModel>, base: int, variant: LoadVariant) -> Phase
    decreases vols.len(),
{
    if vols.len() == 0 {
        Phase::Halted { error: FatalError::NotFound }
    } else {
        let v = vols[0];
        if !v.open_ok {
            Phase::Halted { error: FatalError::CapabilityOpen }
        } else if !v.render_ok {
            Phase::Halted { error: FatalError::PathRender }
        } else if !v.query_ok {
            Phase::Halted { error: FatalError::FilesystemQuery }
        } else if v.has_file {
            match_outcome(v, base, variant)
        } else {
            scan_outcome(vols.skip(1), base + 1, variant)
        }
    }
}

/// Every step the whole pipeline emits for a given firmware world.
pub open spec fn spec_trace(
    init_ok: bool,
    enumeration_ok: bool,
    vols: Seq<VolumeModel>,
    variant: LoadVariant,
) -> Seq<Step> {
    if !init_ok {
        seq![Step::Fatal { error: FatalError::Init }]
    } else if !enumeration_ok {
        seq![Step::Fatal { error: FatalError::Enumeration }]
    } else {
        scan_trace(vols, 0, variant)
    }
}

/// The terminal phase the whole pipeline reaches for a given firmware world.
pub open spec fn spec_outcome(
    init_ok: bool,
    enumeration_ok: bool,
    vols: Seq<VolumeModel>,
    variant: LoadVariant,
) -> Phase {
    if !init_ok {
        Phase::Halted { error: FatalError::Init }
    } else if !enumeration_ok {
        Phase::Halted { error: FatalError::Enumeration }
    } else {
        scan_outcome(vols, 0, variant)
    }
}

/// Drive the entry controller through one whole pipeline run against the
/// given firmware world, collecting every observable step. The trace and the
/// terminal phase are exactly the ones the specification prescribes: the
/// volumes are tried once each in enumeration order, the first match wins,
/// the countdown runs in full before any load, and any failure ends the run
/// with that failure's single fatal report.
pub fn run(
    init_ok: bool,
    enumeration_ok: bool,
    volumes: &Vec<VolumeModel>,
    variant: LoadVariant,
) -> (r: (Vec<Step>, Controller))
    ensures
        r.0@ == spec_trace(init_ok, enumeration_ok, volumes@, variant),
        r.1.phase == spec_outcome(init_ok, enumeration_ok, volumes@, variant),
{
    let mut c = Controller::new();
    let mut trace: Vec<Step> = Vec::new();
    if !init_ok {
        let _a = c.step(Event::LoggingFailed);
        trace.push(Step::Fatal { error: FatalError::Init });
        proof {
            assert(trace@ =~= seq![Step::Fatal { error: FatalError::Init }]);
        }
        return (trace, c);
    }
    let _a = c.step(Event::LoggingReady);
    if !enumeration_ok {
        let _a = c.step(Event::EnumerationFailed);
        trace.push(Step::Fatal { error: FatalError::Enumeration });
        proof {
            assert(trace@ =~= seq![Step::Fatal { error: FatalError::Enumeration }]);
        }
        return (trace, c);
    }
    let _a = c.step(Event::VolumesFound { count: volumes.len() });
    if volumes.len() == 0 {
        trace.push(Step::Fatal { error: FatalError::NotFound });
        proof {
            assert(trace@ =~= scan_trace(volumes@, 0, variant));
        }
        return (trace, c);
    }
    let total = volumes.len();
    let mut i: usize = 0;
    proof {
        assert(volumes@.skip(0) =~= volumes@);
    }
    loop
        invariant
            init_ok,
            enumeration_ok,
            0 <= i < total,
            total == volumes@.len(),
            c.phase == (Phase::Scanning { total, current: i, opened: false }),
            c.wf(),
            scan_trace(volumes@, 0, variant) == trace@ + scan_trace(
                volumes@.skip(i as int),
                i as int,
                variant,
            ),
            scan_outcome(volumes@, 0, variant) == scan_outcome(
                volumes@.skip(i as int),
                i as int,
                variant,
            ),
        decreases total - i,
    {
        let ghost rest = volumes@.skip(i as int);
        proof {
            assert(rest.len() > 0);
            assert(rest[0] == volumes@[i as int]);
        }
        let v = volumes[i];
        trace.push(Step::Inspect { index: i });
        if !v.open_ok {
            let _a = c.step(Event::VolumeOpenFailed);
            trace.push(Step::Fatal { error: FatalError::CapabilityOpen });
            proof {
                assert(trace@ =~= scan_trace(volumes@, 0, variant));
            }
            return (trace, c);
        }
        if !v.render_ok {
            let _a = c.step(Event::IdentityRenderFailed);
            trace.push(Step::Fatal { error: FatalError::PathRender });
            proof {
                assert(trace@ =~= scan_trace(volumes@, 0, variant));
            }
            return (trace, c);
        }
        let _a = c.step(Event::VolumeOpened);
        if !v.query_ok {
            let _a = c.step(Event::ExistenceCheckFailed);
            trace.push(Step::Fatal { error: FatalError::FilesystemQuery });
            proof {
                assert(trace@ =~= scan_trace(volumes@, 0, variant));
            }
            return (trace, c);
        }
        if v.has_file {
            let _a = c.step(Event::FileFound);
            trace.push(Step::Found { index: i });
            if !v.prepare_ok {
                let err = match variant {
                    LoadVariant::FromPath => FatalError::PathBuild,
                    LoadVariant::FromBytes => FatalError::FileRead,
                };
                let _a = c.step(Event::SourceFailed { error: err });
                trace.push(Step::Fatal { error: err });
                proof {
                    assert(trace@ =~= scan_trace(volumes@, 0, variant));
                }
                return (trace, c);
            }
            let _a = c.step(Event::SourceReady);
            let plan = countdown_plan();
            let t0 = plan[0];
            trace.push(Step::Announce { remaining: t0.remaining });
            trace.push(Step::Stall { seconds: t0.stall_seconds });
            let t1 = plan[1];
            trace.push(Step::Announce { remaining: t1.remaining });
            trace.push(Step::Stall { seconds: t1.stall_seconds });
            let t2 = plan[2];
            trace.push(Step::Announce { remaining: t2.remaining });
            trace.push(Step::Stall { seconds: t2.stall_seconds });
            let _a = c.step(Event::CountdownDone);
            if !v.load_ok {
                let _a = c.step(Event::ImageLoadFailed);
                trace.push(Step::Fatal { error: FatalError::Load });
                proof {
                    assert(trace@ =~= scan_trace(volumes@, 0, variant));
                }
                return (trace, c);
            }
            trace.push(Step::Load { index: i });
            let _a = c.step(Event::ImageLoaded);
            trace.push(Step::Start { index: i });
            if !v.start_ok {
                let _a = c.step(Event::ImageStartFailed);
                trace.push(Step::Fatal { error: FatalError::Start });
                proof {
                    assert(trace@ =~= scan_trace(volumes@, 0, variant));
                }
                return (trace, c);
            }
            proof {
                assert(trace@ =~= scan_trace(volumes@, 0, variant));
            }
            return (trace, c);
        }
        trace.push(Step::Absent { index: i });
        let _a = c.step(Event::FileAbsent);
        if i + 1 < total {
            proof {
                assert(rest.skip(1) =~= volumes@.skip(i as int + 1));
                assert(scan_trace(rest, i as int, variant) =~= seq![
                    Step::Inspect { index: i },
                    Step::Absent { index: i },
                ] + scan_trace(volumes@.skip(i as int + 1), i as int + 1, variant));
                assert(scan_trace(volumes@, 0, variant) =~= trace@ + scan_trace(
                    volumes@.skip(i as int + 1),
                    i as int + 1,
                    variant,
                ));
            }
            i = i + 1;
        } else {
            trace.push(Step::Fatal { error: FatalError::NotFound });
            proof {
                assert(rest.skip(1) =~= volumes@.skip(i as int + 1));
                assert(volumes@.skip(i as int + 1).len() == 0);
                assert(scan_outcome(volumes@.skip(i as int + 1), i as int + 1, variant)
                    == (Phase::Halted { error: FatalError::NotFound }));
                assert(trace@ =~= scan_trace(volumes@, 0, variant));
            }
            return (trace, c);
        }
    }
}

} // verus!
