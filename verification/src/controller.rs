use vstd::prelude::*;
use crate::errors::FatalError;

verus! {

/// The states of the entry controller. The pipeline moves strictly forward:
/// bring up logging, enumerate volumes, scan them in enumeration order, and
/// for the first volume holding the target file prepare the load source, run
/// the countdown, load and start the image. `Handoff` is the terminal success
/// state (a started image never returns control); `Halted` is the terminal
/// failure state (one fatal report, then an idle spin).
#[derive(Clone, Copy, Debug, PartialEq, Eq, Structural)]
pub enum Phase {
    /// Logging is not up yet.
    Uninitialized,
    /// Waiting for the volume enumeration result.
    Enumerating,
    /// Working through the enumerated volumes. `current` is the volume under
    /// inspection; `opened` says whether its capabilities are already open.
    Scanning { total: usize, current: usize, opened: bool },
    /// The target file was found on volume `index`; its load source (device
    /// path or file bytes) is being prepared.
    Preparing { index: usize },
    /// Running the fixed countdown before handing off to volume `index`.
    Counting { index: usize },
    /// Waiting for the firmware to materialize the image of volume `index`.
    Loading { index: usize },
    /// Control was handed to the image of volume `index`. On success this
    /// state is never observed again; execution resuming here means the
    /// start call failed.
    Handoff { index: usize },
    /// Terminal failure: report `error` once, then spin forever.
    Halted { error: FatalError },
}

/// What the surrounding firmware glue reports back to the controller after
/// performing the previous action.
#[derive(Clone, Copy, Debug, PartialEq, Eq, Structural)]
pub enum Event {
    LoggingReady,
    LoggingFailed,
    VolumesFound { count: usize },
    EnumerationFailed,
    VolumeOpened,
    VolumeOpenFailed,
    IdentityRenderFailed,
    FileFound,
    FileAbsent,
    ExistenceCheckFailed,
    SourceReady,
    SourceFailed { error: FatalError },
    CountdownDone,
    ImageLoaded,
    ImageLoadFailed,
    ImageStartFailed,
}

/// What the controller asks the surrounding firmware glue to do next.
#[derive(Clone, Copy, Debug, PartialEq, Eq, Structural)]
pub enum Action {
    /// Ask the firmware for all volumes with filesystem access.
    Enumerate,
    /// Open the capabilities of volume `index` and render its identity.
    Inspect { index: usize },
    /// Test volume `index` for the target file.
    CheckFile { index: usize },
    /// Build the load source for the file found on volume `index`.
    PrepareSource { index: usize },
    /// Run the fixed countdown for the handoff to volume `index`.
    RunCountdown { index: usize },
    /// Ask the firmware to load the image of volume `index`.
    LoadImage { index: usize },
    /// Transfer control to the loaded image of volume `index`.
    StartImage { index: usize },
    /// Report `error` once and enter the terminal idle spin.
    Fail { error: FatalError },
}

/// Which events a phase can answer. The surrounding glue must only hand the
/// controller the outcome of the action it was just asked to perform.
pub open spec fn accepts(p: Phase, e: Event) -> bool {
    match (p, e) {
        (Phase::Uninitialized, Event::LoggingReady) => true,
        (Phase::Uninitialized, Event::LoggingFailed) => true,
        (Phase::Enumerating, Event::VolumesFound { .. }) => true,
        (Phase::Enumerating, Event::EnumerationFailed) => true,
        (Phase::Scanning { opened, .. }, Event::VolumeOpened) => !opened,
        (Phase::Scanning { opened, .. }, Event::VolumeOpenFailed) => !opened,
        (Phase::Scanning { opened, .. }, Event::IdentityRenderFailed) => !opened,
        (Phase::Scanning { opened, .. }, Event::FileFound) => opened,
        (Phase::Scanning { opened, .. }, Event::FileAbsent) => opened,
        (Phase::Scanning { opened, .. }, Event::ExistenceCheckFailed) => opened,
        (Phase::Preparing { .. }, Event::SourceReady) => true,
        (Phase::Preparing { .. }, Event::SourceFailed { error }) => error == FatalError::PathBuild
            || error == FatalError::PathRender
            || error == FatalError::FileRead,
        (Phase::Counting { .. }, Event::CountdownDone) => true,
        (Phase::Loading { .. }, Event::ImageLoaded) => true,
        (Phase::Loading { .. }, Event::ImageLoadFailed) => true,
        (Phase::Handoff { .. }, Event::ImageStartFailed) => true,
        _ => false,
    }
}

/// The full transition relation of the entry controller: the next phase and
/// the next action for the surrounding glue. Every error event moves to
/// `Halted` with the matching error; a scan that runs past the last volume
/// moves to `Halted { NotFound }`. The catch-all arm is never reached from
/// `step`, whose precondition demands an accepted event.
pub open spec fn transition(p: Phase, e: Event) -> (Phase, Action) {
    match (p, e) {
        (Phase::Uninitialized, Event::LoggingReady) => (Phase::Enumerating, Action::Enumerate),
        (Phase::Uninitialized, Event::LoggingFailed) => (
            Phase::Halted { error: FatalError::Init },
            Action::Fail { error: FatalError::Init },
        ),
        (Phase::Enumerating, Event::VolumesFound { count }) => if count == 0 {
            (
                Phase::Halted { error: FatalError::NotFound },
                Action::Fail { error: FatalError::NotFound },
            )
        } else {
            (
                Phase::Scanning { total: count, current: 0, opened: false },
                Action::Inspect { index: 0 },
            )
        },
        (Phase::Enumerating, Event::EnumerationFailed) => (
            Phase::Halted { error: FatalError::Enumeration },
            Action::Fail { error: FatalError::Enumeration },
        ),
        (Phase::Scanning { total, current, .. }, Event::VolumeOpened) => (
            Phase::Scanning { total, current, opened: true },
            Action::CheckFile { index: current },
        ),
        (Phase::Scanning { .. }, Event::VolumeOpenFailed) => (
            Phase::Halted { error: FatalError::CapabilityOpen },
            Action::Fail { error: FatalError::CapabilityOpen },
        ),
        (Phase::Scanning { .. }, Event::IdentityRenderFailed) => (
            Phase::Halted { error: FatalError::PathRender },
            Action::Fail { error: FatalError::PathRender },
        ),
        (Phase::Scanning { current, .. }, Event::FileFound) => (
            Phase::Preparing { index: current },
            Action::PrepareSource { index: current },
        ),
        (Phase::Scanning { total, current, .. }, Event::FileAbsent) => if current + 1 < total {
            (
                Phase::Scanning { total, current: (current + 1) as usize, opened: false },
                Action::Inspect { index: (current + 1) as usize },
            )
        } else {
            (
                Phase::Halted { error: FatalError::NotFound },
                Action::Fail { error: FatalError::NotFound },
            )
        },
        (Phase::Scanning { .. }, Event::ExistenceCheckFailed) => (
            Phase::Halted { error: FatalError::FilesystemQuery },
            Action::Fail { error: FatalError::FilesystemQuery },
        ),
        (Phase::Preparing { index }, Event::SourceReady) => (
            Phase::Counting { index },
            Action::RunCountdown { index },
        ),
        (Phase::Preparing { .. }, Event::SourceFailed { error }) => (
            Phase::Halted { error },
            Action::Fail { error },
        ),
        (Phase::Counting { index }, Event::CountdownDone) => (
            Phase::Loading { index },
            Action::LoadImage { index },
        ),
        (Phase::Loading { index }, Event::ImageLoaded) => (
            Phase::Handoff { index },
            Action::StartImage { index },
        ),
        (Phase::Loading { .. }, Event::ImageLoadFailed) => (
            Phase::Halted { error: FatalError::Load },
            Action::Fail { error: FatalError::Load },
        ),
        (Phase::Handoff { .. }, Event::ImageStartFailed) => (
            Phase::Halted { error: FatalError::Start },
            Action::Fail { error: FatalError::Start },
        ),
        _ => (p, Action::Fail { error: FatalError::NotFound }),
    }
}

/// The entry controller: the one piece of the pipeline that decides, while
/// the surrounding firmware glue only performs the actions it is handed and
/// reports their outcomes back as events.
pub struct Controller {
    pub phase: Phase,
}

impl Controller {
    /// A scanning controller never points past the end of the enumerated
    /// volumes.
    pub open spec fn wf(self) -> bool {
        match self.phase {
            Phase::Scanning { total, current, .. } => current < total,
            _ => true,
        }
    }

    /// A fresh controller, before the logging subsystem is up.
    pub fn new() -> (r: Controller)
        ensures
            r.phase == Phase::Uninitialized,
            r.wf(),
    {
        Controller { phase: Phase::Uninitialized }
    }

    pub open spec fn accepts(self, e: Event) -> bool {
        accepts(self.phase, e)
    }

    /// Advance by one event and say what to do next. The new phase and the
    /// returned action are exactly what the transition relation prescribes.
    pub fn step(&mut self, e: Event) -> (r: Action)
        requires
            old(self).wf(),
            old(self).accepts(e),
        ensures
            final(self).wf(),
            (final(self).phase, r) == transition(old(self).phase, e),
    {
        let (next, action) = match (self.phase, e) {
            (Phase::Uninitialized, Event::LoggingReady) => (
                Phase::Enumerating,
                Action::Enumerate,
            ),
            (Phase::Uninitialized, Event::LoggingFailed) => (
                Phase::Halted { error: FatalError::Init },
                Action::Fail { error: FatalError::Init },
            ),
            (Phase::Enumerating, Event::VolumesFound { count }) => if count == 0 {
                (
                    Phase::Halted { error: FatalError::NotFound },
                    Action::Fail { error: FatalError::NotFound },
                )
            } else {
                (
                    Phase::Scanning { total: count, current: 0, opened: false },
                    Action::Inspect { index: 0 },
                )
            },
            (Phase::Enumerating, Event::EnumerationFailed) => (
                Phase::Halted { error: FatalError::Enumeration },
                Action::Fail { error: FatalError::Enumeration },
            ),
            (Phase::Scanning { total, current, .. }, Event::VolumeOpened) => (
                Phase::Scanning { total, current, opened: true },
                Action::CheckFile { index: current },
            ),
            (Phase::Scanning { .. }, Event::VolumeOpenFailed) => (
                Phase::Halted { error: FatalError::CapabilityOpen },
                Action::Fail { error: FatalError::CapabilityOpen },
            ),
            (Phase::Scanning { .. }, Event::IdentityRenderFailed) => (
                Phase::Halted { error: FatalError::PathRender },
                Action::Fail { error: FatalError::PathRender },
            ),
            (Phase::Scanning { current, .. }, Event::FileFound) => (
                Phase::Preparing { index: current },
                Action::PrepareSource { index: current },
            ),
            (Phase::Scanning { total, current, .. }, Event::FileAbsent) => if current + 1 < total {
                (
                    Phase::Scanning { total, current: current + 1, opened: false },
                    Action::Inspect { index: current + 1 },
                )
            } else {
                (
                    Phase::Halted { error: FatalError::NotFound },
                    Action::Fail { error: FatalError::NotFound },
                )
            },
            (Phase::Scanning { .. }, Event::ExistenceCheckFailed) => (
                Phase::Halted { error: FatalError::FilesystemQuery },
                Action::Fail { error: FatalError::FilesystemQuery },
            ),
            (Phase::Preparing { index }, Event::SourceReady) => (
                Phase::Counting { index },
                Action::RunCountdown { index },
            ),
            (Phase::Preparing { .. }, Event::SourceFailed { error }) => (
                Phase::Halted { error },
                Action::Fail { error },
            ),
            (Phase::Counting { index }, Event::CountdownDone) => (
                Phase::Loading { index },
                Action::LoadImage { index },
            ),
            (Phase::Loading { index }, Event::ImageLoaded) => (
                Phase::Handoff { index },
                Action::StartImage { index },
            ),
            (Phase::Loading { .. }, Event::ImageLoadFailed) => (
                Phase::Halted { error: FatalError::Load },
                Action::Fail { error: FatalError::Load },
            ),
            (Phase::Handoff { .. }, Event::ImageStartFailed) => (
                Phase::Halted { error: FatalError::Start },
                Action::Fail { error: FatalError::Start },
            ),
            _ => (self.phase, Action::Fail { error: FatalError::NotFound }),
        };
        self.phase = next;
        action
    }
}

} // verus!
