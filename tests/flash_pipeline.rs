use jellysetup::flash::{FlashAction, FlashError, FlashEvent, FlashManager, FlashStage, FlashStep};
use jellysetup::progress::{global_percent, percent_of, FlashProgress, Phase};
use jellysetup::safety::{is_safe_to_flash, verify_safe_to_flash, SDCard, SafetyViolation};

const GIB: u64 = 1024 * 1024 * 1024;

fn card(path: &str, size: u64, removable: bool) -> SDCard {
    SDCard { path: path.to_string(), name: "SD".to_string(), size, removable }
}

fn feed(m: &mut FlashManager, events: &[FlashEvent]) -> Vec<FlashStep> {
    let mut out = Vec::new();
    for e in events {
        out.push(m.advance(*e));
    }
    out
}

fn happy_events(cached: bool, extracted: bool) -> Vec<FlashEvent> {
    let mut es = vec![
        FlashEvent::DeviceSize(16 * GIB),
        FlashEvent::ImageResolved { cached, extracted },
    ];
    if !cached && !extracted {
        es.push(FlashEvent::DownloadProgress { downloaded: 50, total: 100 });
        es.push(FlashEvent::DownloadProgress { downloaded: 100, total: 100 });
        es.push(FlashEvent::StepDone);
    }
    if !extracted {
        es.push(FlashEvent::StepDone);
    }
    es.extend([
        FlashEvent::DeviceSize(16 * GIB),
        FlashEvent::StepDone,
        FlashEvent::WriteProgress { written: 10, total: 100 },
        FlashEvent::WriteProgress { written: 100, total: 100 },
        FlashEvent::StepDone,
        FlashEvent::StepDone,
        FlashEvent::StepDone,
    ]);
    es
}

#[test]
fn happy_path_phases_and_final_percent() {
    let mut m = FlashManager::new();
    assert_eq!(m.begin("/dev/rdisk4"), Ok(FlashAction::ProbeDevice));
    let steps = feed(&mut m, &happy_events(false, false));
    let emits: Vec<_> = steps.iter().filter_map(|s| s.emit).collect();
    let mut phases: Vec<Phase> = Vec::new();
    for e in &emits {
        if phases.last() != Some(&e.phase) {
            phases.push(e.phase);
        }
    }
    assert_eq!(phases, vec![Phase::Download, Phase::Write, Phase::Configure, Phase::Eject, Phase::Complete]);
    let names: Vec<&str> = phases.iter().map(|p| p.name()).collect();
    assert_eq!(names, vec!["download", "write", "configure", "eject", "complete"]);
    for w in emits.windows(2) {
        assert!(w[0].percent <= w[1].percent);
    }
    assert_eq!(emits.last().unwrap().percent, 100);
    assert_eq!(steps.last().unwrap().action, FlashAction::Finish);
    assert_eq!(m.stage(), FlashStage::Done);
    assert!(!m.is_busy());
}

#[test]
fn happy_path_actions_in_order() {
    let mut m = FlashManager::new();
    m.begin("/dev/rdisk4").unwrap();
    let actions: Vec<FlashAction> = feed(&mut m, &happy_events(false, false)).iter().map(|s| s.action).collect();
    assert_eq!(
        actions,
        vec![
            FlashAction::ResolveImage,
            FlashAction::Download,
            FlashAction::Continue,
            FlashAction::Continue,
            FlashAction::Extract,
            FlashAction::ProbeDevice,
            FlashAction::Unmount,
            FlashAction::WriteImage,
            FlashAction::Continue,
            FlashAction::Continue,
            FlashAction::ConfigureBoot,
            FlashAction::Eject,
            FlashAction::Finish,
        ]
    );
}

#[test]
fn write_progress_maps_into_write_window() {
    let mut m = FlashManager::new();
    m.begin("/dev/rdisk4").unwrap();
    let steps = feed(&mut m, &happy_events(true, true));
    // 10 of 100 bytes written: 25 + 10 * 50 / 100 = 30; the full image stops at 99 -> 74.
    let writes: Vec<u32> = steps
        .iter()
        .filter(|s| s.action == FlashAction::Continue)
        .map(|s| s.emit.unwrap().percent)
        .collect();
    assert_eq!(writes, vec![30, 74]);
}

#[test]
fn resume_skips_download_and_extract() {
    let mut m = FlashManager::new();
    m.begin("/dev/rdisk4").unwrap();
    let steps = feed(&mut m, &happy_events(true, true));
    assert!(steps
        .iter()
        .all(|s| s.action != FlashAction::Download && s.action != FlashAction::Extract));
    assert_eq!(steps.last().unwrap().action, FlashAction::Finish);
    assert_eq!(steps.last().unwrap().emit.unwrap().percent, 100);
}

#[test]
fn cached_archive_is_extracted_not_downloaded() {
    let mut m = FlashManager::new();
    m.begin("/dev/rdisk4").unwrap();
    let steps = feed(&mut m, &happy_events(true, false));
    assert!(steps.iter().all(|s| s.action != FlashAction::Download));
    assert!(steps.iter().any(|s| s.action == FlashAction::Extract));
    assert_eq!(m.stage(), FlashStage::Done);
}

#[test]
fn rejected_device_before_any_download() {
    let mut m = FlashManager::new();
    assert_eq!(m.begin("/dev/rdisk5"), Ok(FlashAction::ProbeDevice));
    let step = m.advance(FlashEvent::DeviceSize(1024 * GIB));
    assert_eq!(step.action, FlashAction::Abort(FlashError::Safety(SafetyViolation::TooLarge)));
    assert_eq!(step.emit, None);
    assert_eq!(m.stage(), FlashStage::Failed);
    assert!(!m.is_busy());
    assert!(!is_safe_to_flash(&card("/dev/rdisk5", 1024 * GIB, false)));
}

#[test]
fn safety_rechecked_before_write() {
    let mut m = FlashManager::new();
    m.begin("/dev/rdisk4").unwrap();
    feed(&mut m, &[FlashEvent::DeviceSize(16 * GIB), FlashEvent::ImageResolved { cached: true, extracted: true }]);
    let step = m.advance(FlashEvent::DeviceSize(2 * GIB));
    assert_eq!(step.action, FlashAction::Abort(FlashError::Safety(SafetyViolation::TooSmall)));
}

#[test]
fn system_disk_is_refused() {
    let mut m = FlashManager::new();
    m.begin("/dev/rdisk2").unwrap();
    let step = m.advance(FlashEvent::DeviceSize(16 * GIB));
    assert_eq!(step.action, FlashAction::Abort(FlashError::Safety(SafetyViolation::SystemDisk)));
}

#[test]
fn second_request_is_busy_until_first_ends() {
    let mut m = FlashManager::new();
    m.begin("/dev/rdisk4").unwrap();
    assert!(m.is_busy());
    assert_eq!(m.begin("/dev/rdisk6"), Err(FlashError::Busy));
    // The first run fails: the lock is released.
    m.advance(FlashEvent::DeviceSize(16 * GIB));
    let step = m.advance(FlashEvent::ImageMissing);
    assert_eq!(step.action, FlashAction::Abort(FlashError::ImageNotFound));
    assert!(!m.is_busy());
    assert_eq!(m.begin("/dev/rdisk6"), Ok(FlashAction::ProbeDevice));
    // And after a success too.
    feed(&mut m, &happy_events(true, true));
    assert!(!m.is_busy());
    assert_eq!(m.begin("/dev/rdisk4"), Ok(FlashAction::ProbeDevice));
}

#[test]
fn abandoned_run_releases_lock() {
    let mut m = FlashManager::new();
    m.begin("/dev/rdisk4").unwrap();
    m.abandon();
    assert!(!m.is_busy());
    assert_eq!(m.stage(), FlashStage::Failed);
    assert!(m.begin("/dev/rdisk4").is_ok());
}

#[test]
fn failures_of_each_step_abort() {
    let cases = [
        (vec![FlashEvent::ImageResolved { cached: false, extracted: false }, FlashEvent::StepFailed], FlashError::DownloadFailed),
        (vec![FlashEvent::ImageResolved { cached: true, extracted: false }, FlashEvent::StepFailed], FlashError::ExtractFailed),
        (vec![FlashEvent::ImageResolved { cached: true, extracted: true }, FlashEvent::DeviceSize(16 * GIB), FlashEvent::StepFailed], FlashError::UnmountFailed),
        (vec![FlashEvent::ImageResolved { cached: true, extracted: true }, FlashEvent::DeviceSize(16 * GIB), FlashEvent::StepDone, FlashEvent::StepFailed], FlashError::WriteFailed),
        (vec![FlashEvent::ImageResolved { cached: true, extracted: true }, FlashEvent::DeviceSize(16 * GIB), FlashEvent::StepDone, FlashEvent::StepDone, FlashEvent::StepFailed], FlashError::ConfigureFailed),
        (vec![FlashEvent::ImageResolved { cached: true, extracted: true }, FlashEvent::DeviceSize(16 * GIB), FlashEvent::StepDone, FlashEvent::StepDone, FlashEvent::StepDone, FlashEvent::StepFailed], FlashError::EjectFailed),
        (vec![FlashEvent::StepDone], FlashError::UnexpectedEvent),
    ];
    for (events, err) in cases {
        let mut m = FlashManager::new();
        m.begin("/dev/rdisk4").unwrap();
        m.advance(FlashEvent::DeviceSize(16 * GIB));
        let steps = feed(&mut m, &events);
        assert_eq!(steps.last().unwrap().action, FlashAction::Abort(err));
        assert!(!m.is_busy());
    }
}

#[test]
fn safety_window_edges() {
    assert_eq!(verify_safe_to_flash("/dev/rdisk4", 4 * GIB), Ok(()));
    assert_eq!(verify_safe_to_flash("/dev/rdisk4", 512 * GIB), Ok(()));
    assert_eq!(verify_safe_to_flash("/dev/rdisk4", 4 * GIB - 1), Err(SafetyViolation::TooSmall));
    assert_eq!(verify_safe_to_flash("/dev/rdisk4", 512 * GIB + 1), Err(SafetyViolation::TooLarge));
    assert_eq!(verify_safe_to_flash("/dev/disk0", 16 * GIB), Err(SafetyViolation::SystemDisk));
    assert_eq!(verify_safe_to_flash("/dev/rdisk3", 16 * GIB), Err(SafetyViolation::SystemDisk));
    assert_eq!(verify_safe_to_flash("disk1", 16 * GIB), Err(SafetyViolation::SystemDisk));
    assert_eq!(verify_safe_to_flash("/dev/rdisk10", 16 * GIB), Ok(()));
    assert!(is_safe_to_flash(&card("/dev/rdisk4", 16 * GIB, true)));
    assert!(!is_safe_to_flash(&card("/dev/rdisk1", 16 * GIB, true)));
}

#[test]
fn phase_windows_and_ratios() {
    assert_eq!(global_percent(Phase::Download, 0), 0);
    assert_eq!(global_percent(Phase::Download, 100), 25);
    assert_eq!(global_percent(Phase::Write, 50), 50);
    assert_eq!(global_percent(Phase::Configure, 100), 90);
    assert_eq!(global_percent(Phase::Eject, 50), 95);
    assert_eq!(percent_of(1, 3, 100), 33);
    assert_eq!(percent_of(5, 0, 100), 0);
    assert_eq!(percent_of(200, 100, 99), 99);
    assert_eq!(percent_of(u64::MAX, u64::MAX, 100), 100);
    let p = FlashProgress::new(Phase::Write, 30, "Écriture", Some("6.5 MB/s"));
    assert_eq!(p.step, "write");
    assert_eq!(p.percent, 30);
    assert_eq!(p.speed.as_deref(), Some("6.5 MB/s"));
}
