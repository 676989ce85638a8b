//! The worker pipeline end to end, driven with simulated filesystem
//! reports: the original archive is renamed aside when its own name blocks
//! the destination, the destination receives the entry bytes, and the
//! original (through its alias) is deleted afterwards.

use unzipper::extract::{plan_for_variant, ExtractionPlan, FsAction};
use unzipper::names::is_temp_file_name;
use unzipper::paths::is_processable_path;
use unzipper::variant::ExtractorVariant;
use unzipper::worker::{Task, TaskAction, TaskEvent, TaskOutcome};
use unzipper::resolve::ProbeResult;

fn zip_bytes(entries: &[(&str, &[u8])]) -> Vec<u8> {
    let mut w = zip::ZipWriter::new(std::io::Cursor::new(Vec::new()));
    let opts = zip::write::SimpleFileOptions::default()
        .compression_method(zip::CompressionMethod::Stored);
    for (name, data) in entries {
        w.start_file(*name, opts).unwrap();
        std::io::Write::write_all(&mut w, data).unwrap();
    }
    w.finish().unwrap().into_inner()
}

#[test]
fn test_is_temp_file_name() {
    assert!(is_temp_file_name("file.part"));
    assert!(is_temp_file_name("file.tmp"));
    assert!(is_temp_file_name("Some.CRDOWNLOAD"));
    assert!(!is_temp_file_name("archive.7z"));
    assert!(!is_temp_file_name("normal.zip"));
}

#[test]
fn test_wait_until_stable_on_existing_file() {
    // An existing file whose size does not change: two reads agree within
    // a budget of 3 and the file counts as stable.
    let mut gate = unzipper::gate::StabilityGate::new(3);
    let first = gate.observe(Some(6));
    assert_eq!(first, unzipper::gate::GateDecision::Again);
    let second = gate.observe(Some(6));
    assert_eq!(second, unzipper::gate::GateDecision::Stable);
}

#[test]
fn test_unzip_file_extracts() {
    let data = zip_bytes(&[("inner.txt", b"hi")]);
    let plan = plan_for_variant(
        ExtractorVariant::Zip,
        "/downloads/sample.zip",
        "/downloads/sample.zip",
        "/downloads/sample.zip",
        &data,
    )
    .unwrap();
    match plan {
        ExtractionPlan::Actions(actions) => {
            assert_eq!(
                actions,
                vec![FsAction::WriteFile(
                    "/downloads/sample.zip/inner.txt".to_string(),
                    b"hi".to_vec()
                )]
            );
        }
        ExtractionPlan::RunTool(_) => panic!("zip must not delegate to a tool"),
    }
}

#[test]
fn test_process_file_zip_extracts_and_deletes_archive() {
    let source = "/downloads/sample.zip";
    let dest = "/downloads/sample.zip";
    let alias = "/downloads/sample.zip.__extracting__";
    let data = zip_bytes(&[("inner.txt", b"hi")]);

    let (mut task, action) = Task::begin(source, 5);
    assert_eq!(action, TaskAction::PollSize(source.to_string()));
    let action = task.on_event(TaskEvent::SizeRead(Some(2)));
    assert_eq!(action, TaskAction::PollSize(source.to_string()));
    let action = task.on_event(TaskEvent::SizeRead(Some(2)));
    assert_eq!(action, TaskAction::ProbePath(dest.to_string()));
    // The archive file itself occupies the destination name.
    let action = task.on_event(TaskEvent::Probed(ProbeResult::NonDirectory));
    assert_eq!(action, TaskAction::ProbePath(alias.to_string()));
    let action = task.on_event(TaskEvent::Probed(ProbeResult::Missing));
    assert_eq!(
        action,
        TaskAction::Rename { from: source.to_string(), to: alias.to_string() }
    );
    let action = task.on_event(TaskEvent::Renamed(true));
    assert_eq!(action, TaskAction::CreateDir(dest.to_string()));
    let action = task.on_event(TaskEvent::DirCreated(true));
    assert_eq!(
        action,
        TaskAction::Extract {
            variant: ExtractorVariant::Zip,
            source: source.to_string(),
            file: alias.to_string(),
            dest: dest.to_string()
        }
    );
    // What the extraction writes: inner.txt with content "hi" inside the
    // destination directory named after the archive.
    let plan = plan_for_variant(ExtractorVariant::Zip, source, alias, dest, &data).unwrap();
    assert_eq!(
        plan,
        ExtractionPlan::Actions(vec![FsAction::WriteFile(
            "/downloads/sample.zip/inner.txt".to_string(),
            b"hi".to_vec()
        )])
    );
    let action = task.on_event(TaskEvent::Extracted(true));
    assert_eq!(action, TaskAction::PollSize(alias.to_string()));
    let action = task.on_event(TaskEvent::SizeRead(Some(2)));
    assert_eq!(action, TaskAction::PollSize(alias.to_string()));
    let action = task.on_event(TaskEvent::SizeRead(Some(2)));
    // The original archive, under its alias, is deleted only now.
    assert_eq!(action, TaskAction::Delete(alias.to_string()));
    let action = task.on_event(TaskEvent::Deleted(true));
    assert_eq!(action, TaskAction::Done(TaskOutcome::Extracted));
}

#[test]
fn targz_survives_the_aside_rename() {
    // A fresh pkg.tar.gz occupies its own destination name and is renamed
    // aside; the sub-kind is still read off the source's name, so the
    // contents are extracted, not silently planned away.
    let source = "/downloads/pkg.tar.gz";
    let dest = "/downloads/pkg.tar.gz";
    let alias = "/downloads/pkg.tar.gz.__extracting__";
    let mut tar = tar::Builder::new(Vec::new());
    let mut h = tar::Header::new_gnu();
    h.set_size(9);
    h.set_mode(0o644);
    h.set_cksum();
    tar.append_data(&mut h, "a.txt", &b"hello tgz"[..]).unwrap();
    let mut gz = flate2::write::GzEncoder::new(Vec::new(), flate2::Compression::default());
    std::io::Write::write_all(&mut gz, &tar.into_inner().unwrap()).unwrap();
    let data = gz.finish().unwrap();

    let (mut task, _) = Task::begin(source, 5);
    task.on_event(TaskEvent::SizeRead(Some(3)));
    task.on_event(TaskEvent::SizeRead(Some(3)));
    task.on_event(TaskEvent::Probed(ProbeResult::NonDirectory));
    task.on_event(TaskEvent::Probed(ProbeResult::Missing));
    task.on_event(TaskEvent::Renamed(true));
    let action = task.on_event(TaskEvent::DirCreated(true));
    assert_eq!(
        action,
        TaskAction::Extract {
            variant: ExtractorVariant::TarGz,
            source: source.to_string(),
            file: alias.to_string(),
            dest: dest.to_string()
        }
    );
    let plan = plan_for_variant(ExtractorVariant::TarGz, source, alias, dest, &data).unwrap();
    assert_eq!(
        plan,
        ExtractionPlan::Actions(vec![FsAction::WriteFile(
            "/downloads/pkg.tar.gz/a.txt".to_string(),
            b"hello tgz".to_vec()
        )])
    );
    let action = task.on_event(TaskEvent::Extracted(true));
    assert_eq!(action, TaskAction::PollSize(alias.to_string()));
}

#[test]
fn test_process_file_ignores_temp_extensions() {
    let (_task, action) = Task::begin("/downloads/ongoing.zip.part", 5);
    assert_eq!(action, TaskAction::Done(TaskOutcome::SkippedTempName));
    // The dispatcher would not even have enqueued it.
    assert!(!is_processable_path("/downloads/ongoing.zip.part"));
}

#[test]
fn unknown_extension_is_skipped() {
    // The stability wait still runs, then selection silently skips the
    // path: no probe, no extraction, nothing touched.
    let (mut task, action) = Task::begin("/downloads/notes.txt", 5);
    assert_eq!(action, TaskAction::PollSize("/downloads/notes.txt".to_string()));
    task.on_event(TaskEvent::SizeRead(Some(1)));
    let action = task.on_event(TaskEvent::SizeRead(Some(1)));
    assert_eq!(action, TaskAction::Done(TaskOutcome::SkippedUnknown));

    let (mut task, _) = Task::begin("/downloads/no_extension", 5);
    task.on_event(TaskEvent::SizeRead(Some(1)));
    let action = task.on_event(TaskEvent::SizeRead(Some(1)));
    assert_eq!(action, TaskAction::Done(TaskOutcome::SkippedUnknown));
}

#[test]
fn failed_rename_aborts_only_this_task() {
    let source = "/downloads/x.zip";
    let (mut task, _) = Task::begin(source, 5);
    task.on_event(TaskEvent::SizeRead(Some(1)));
    task.on_event(TaskEvent::SizeRead(Some(1)));
    task.on_event(TaskEvent::Probed(ProbeResult::NonDirectory));
    task.on_event(TaskEvent::Probed(ProbeResult::Missing));
    let action = task.on_event(TaskEvent::Renamed(false));
    assert_eq!(action, TaskAction::Done(TaskOutcome::FailedResolve));
}

#[test]
fn failed_extraction_leaves_the_original() {
    let source = "/downloads/x.zip";
    let (mut task, _) = Task::begin(source, 5);
    task.on_event(TaskEvent::SizeRead(Some(1)));
    task.on_event(TaskEvent::SizeRead(Some(1)));
    task.on_event(TaskEvent::Probed(ProbeResult::Missing));
    task.on_event(TaskEvent::DirCreated(true));
    // The extractor reports failure: the task ends without any delete.
    let action = task.on_event(TaskEvent::Extracted(false));
    assert_eq!(action, TaskAction::Done(TaskOutcome::FailedExtract));
}

#[test]
fn failed_cleanup_is_reported() {
    let source = "/downloads/x.zip";
    let (mut task, _) = Task::begin(source, 5);
    task.on_event(TaskEvent::SizeRead(Some(1)));
    task.on_event(TaskEvent::SizeRead(Some(1)));
    task.on_event(TaskEvent::Probed(ProbeResult::Directory));
    task.on_event(TaskEvent::Extracted(true));
    task.on_event(TaskEvent::SizeRead(Some(1)));
    let action = task.on_event(TaskEvent::SizeRead(Some(1)));
    assert_eq!(action, TaskAction::Delete(source.to_string()));
    let action = task.on_event(TaskEvent::Deleted(false));
    assert_eq!(action, TaskAction::Done(TaskOutcome::CleanupFailed));
}

#[test]
fn shutdown_flag_is_monotonic() {
    let mut flag = unzipper::shutdown::ShutdownFlag::new();
    assert!(!flag.is_set());
    assert!(flag.accepts_events());
    assert!(flag.signal());
    assert!(flag.is_set());
    // A repeated interrupt is a no-op after the first transition.
    assert!(!flag.signal());
    assert!(flag.is_set());
    assert!(!flag.accepts_events());
}
