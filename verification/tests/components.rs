use chainloader::controller::{Action, Controller, Event, Phase};
use chainloader::countdown::countdown_plan;
use chainloader::errors::FatalError;
use chainloader::path_id::{target_path, DevicePathIdentity};
use chainloader::pipeline::{LoadSource, LoadVariant};

#[test]
fn countdown_plan_is_three_announcements_with_equal_stalls() {
    let plan = countdown_plan();
    assert_eq!(plan.len(), 3);
    assert_eq!(plan[0].remaining, 3);
    assert_eq!(plan[1].remaining, 2);
    assert_eq!(plan[2].remaining, 1);
    assert!(plan.iter().all(|t| t.stall_seconds == 1));
}

#[test]
fn target_path_names_the_systemd_boot_image() {
    assert_eq!(target_path(), "EFI\\systemd\\systemd-bootx64.efi");
}

#[test]
fn resolved_path_renders_with_disk_identity_and_target_path() {
    let disk_text = "PciRoot(0x0)/Pci(0x1,0x2)/Sata(0x0,0xFFFF,0x0)/HD(1,GPT,aabbccdd)";
    let disk = DevicePathIdentity::from_rendered_disk(String::from(disk_text));
    assert_eq!(disk.len(), 1);
    assert_eq!(disk.render(), disk_text);
    let full = disk.resolve_path(target_path());
    assert_eq!(full.len(), 2);
    let rendered = full.render();
    assert_eq!(
        rendered,
        "PciRoot(0x0)/Pci(0x1,0x2)/Sata(0x0,0xFFFF,0x0)/HD(1,GPT,aabbccdd)/EFI\\systemd\\systemd-bootx64.efi"
    );
    assert!(rendered.contains(disk_text));
    assert!(rendered.contains("EFI\\systemd\\systemd-bootx64.efi"));
}

#[test]
fn fatal_errors_render_their_single_report_line() {
    assert_eq!(
        FatalError::NotFound.message(),
        "didn't find systemd-bootx64.efi on any partition"
    );
    assert_eq!(FatalError::Enumeration.message(), "failed to enumerate storage volumes");
    assert_eq!(FatalError::Load.message(), "failed to load the target image");
}

#[test]
fn load_source_is_exactly_one_of_bytes_or_path() {
    let bytes = LoadSource::Bytes { image: vec![0x4d, 0x5a] };
    assert_eq!(bytes.variant(), LoadVariant::FromBytes);
    let disk = DevicePathIdentity::from_rendered_disk(String::from("PciRoot(0x0)"));
    let path = LoadSource::Path { identity: disk.resolve_path(target_path()) };
    assert_eq!(path.variant(), LoadVariant::FromPath);
}

#[test]
fn controller_walks_the_happy_path_to_handoff() {
    let mut c = Controller::new();
    assert_eq!(c.phase, Phase::Uninitialized);
    assert_eq!(c.step(Event::LoggingReady), Action::Enumerate);
    assert_eq!(c.phase, Phase::Enumerating);
    assert_eq!(c.step(Event::VolumesFound { count: 2 }), Action::Inspect { index: 0 });
    assert_eq!(c.step(Event::VolumeOpened), Action::CheckFile { index: 0 });
    assert_eq!(c.step(Event::FileAbsent), Action::Inspect { index: 1 });
    assert_eq!(c.step(Event::VolumeOpened), Action::CheckFile { index: 1 });
    assert_eq!(c.step(Event::FileFound), Action::PrepareSource { index: 1 });
    assert_eq!(c.step(Event::SourceReady), Action::RunCountdown { index: 1 });
    assert_eq!(c.step(Event::CountdownDone), Action::LoadImage { index: 1 });
    assert_eq!(c.step(Event::ImageLoaded), Action::StartImage { index: 1 });
    assert_eq!(c.phase, Phase::Handoff { index: 1 });
}

#[test]
fn controller_halts_when_the_scan_runs_out_of_volumes() {
    let mut c = Controller::new();
    c.step(Event::LoggingReady);
    assert_eq!(
        c.step(Event::VolumesFound { count: 0 }),
        Action::Fail { error: FatalError::NotFound }
    );
    assert_eq!(c.phase, Phase::Halted { error: FatalError::NotFound });
}

#[test]
fn controller_propagates_a_source_failure() {
    let mut c = Controller::new();
    c.step(Event::LoggingReady);
    c.step(Event::VolumesFound { count: 1 });
    c.step(Event::VolumeOpened);
    c.step(Event::FileFound);
    assert_eq!(
        c.step(Event::SourceFailed { error: FatalError::PathBuild }),
        Action::Fail { error: FatalError::PathBuild }
    );
    assert_eq!(c.phase, Phase::Halted { error: FatalError::PathBuild });
}
