//! Each extraction strategy against a well-formed sample of its format,
//! the escape vectors against the containment check, and the agreement of
//! duplicate plans.

use unzipper::extract::{plan_for_variant, ExtractError, ExtractionPlan, FsAction, ToolCommand};
use unzipper::variant::ExtractorVariant;

fn zip_bytes(entries: &[(&str, &[u8])]) -> Vec<u8> {
    let mut w = zip::ZipWriter::new(std::io::Cursor::new(Vec::new()));
    let opts = zip::write::SimpleFileOptions::default()
        .compression_method(zip::CompressionMethod::Stored);
    for (name, data) in entries {
        w.start_file(*name, opts).unwrap();
        std::io::Write::write_all(&mut w, data).unwrap();
    }
    w.finish().unwrap().into_inner()
}

fn gz_bytes(data: &[u8]) -> Vec<u8> {
    let mut e = flate2::write::GzEncoder::new(Vec::new(), flate2::Compression::default());
    std::io::Write::write_all(&mut e, data).unwrap();
    e.finish().unwrap()
}

fn tar_bytes(entries: &[(&str, &[u8])]) -> Vec<u8> {
    let mut b = tar::Builder::new(Vec::new());
    for (name, data) in entries {
        let mut h = tar::Header::new_gnu();
        h.set_size(data.len() as u64);
        h.set_mode(0o644);
        h.set_cksum();
        b.append_data(&mut h, *name, *data).unwrap();
    }
    b.into_inner().unwrap()
}

fn sevenz_bytes(entries: &[(&str, &[u8])]) -> Vec<u8> {
    let mut w = sevenz_rust::SevenZWriter::new(std::io::Cursor::new(Vec::new())).unwrap();
    for (name, data) in entries {
        let mut entry = sevenz_rust::SevenZArchiveEntry::new();
        entry.name = (*name).to_string();
        entry.has_stream = true;
        w.push_archive_entry(entry, Some(std::io::Cursor::new((*data).to_vec()))).unwrap();
    }
    w.finish().unwrap().into_inner()
}

fn actions_of(plan: ExtractionPlan) -> Vec<FsAction> {
    match plan {
        ExtractionPlan::Actions(a) => a,
        ExtractionPlan::RunTool(_) => panic!("expected filesystem actions"),
    }
}

#[test]
fn zip_sample_extracts_byte_identical() {
    let data = zip_bytes(&[("a.txt", b"alpha"), ("sub/b.txt", b"beta")]);
    let plan = plan_for_variant(ExtractorVariant::Zip, "/w/box.zip", "/w/box.zip", "/w/box.zip", &data).unwrap();
    assert_eq!(
        actions_of(plan),
        vec![
            FsAction::WriteFile("/w/box.zip/a.txt".to_string(), b"alpha".to_vec()),
            FsAction::WriteFile("/w/box.zip/sub/b.txt".to_string(), b"beta".to_vec()),
        ]
    );
}

#[test]
fn tar_sample_extracts_byte_identical() {
    let data = tar_bytes(&[("one.txt", b"tar data")]);
    let plan = plan_for_variant(
        ExtractorVariant::TarGz,
        "/w/pkg.tar",
        "/w/pkg.tar.__extracting__",
        "/w/pkg.tar",
        &data,
    ).unwrap();
    assert_eq!(
        actions_of(plan),
        vec![FsAction::WriteFile("/w/pkg.tar/one.txt".to_string(), b"tar data".to_vec())]
    );
}

#[test]
fn targz_sample_extracts_byte_identical() {
    // A pkg.tar.gz with one entry a.txt decompresses into the directory
    // named pkg.tar.gz, entry content kept byte for byte.
    let data = gz_bytes(&tar_bytes(&[("a.txt", b"hello tgz")]));
    let plan =
        plan_for_variant(
            ExtractorVariant::TarGz,
            "/w/pkg.tar.gz",
            "/w/pkg.tar.gz.__extracting__",
            "/w/pkg.tar.gz",
            &data,
        ).unwrap();
    assert_eq!(
        actions_of(plan),
        vec![FsAction::WriteFile("/w/pkg.tar.gz/a.txt".to_string(), b"hello tgz".to_vec())]
    );
}

#[test]
fn bare_gz_decompresses_to_stem() {
    let data = gz_bytes(b"plain text");
    let plan =
        plan_for_variant(
            ExtractorVariant::TarGz,
            "/w/note.txt.gz",
            "/w/note.txt.gz.__extracting__",
            "/w/note.txt.gz",
            &data,
        )
            .unwrap();
    assert_eq!(
        actions_of(plan),
        vec![FsAction::WriteFile("/w/note.txt.gz/note.txt".to_string(), b"plain text".to_vec())]
    );
}

#[test]
fn sevenz_sample_extracts_byte_identical() {
    let data = sevenz_bytes(&[("inner.txt", b"seven")]);
    let plan = plan_for_variant(ExtractorVariant::SevenZip, "/w/box.7z", "/w/box.7z", "/w/box.7z", &data)
        .unwrap();
    assert_eq!(
        actions_of(plan),
        vec![FsAction::WriteFileForce("/w/box.7z/inner.txt".to_string(), b"seven".to_vec())]
    );
}

#[test]
fn rar_delegates_to_the_external_tool() {
    let plan = plan_for_variant(
        ExtractorVariant::Rar,
        "/w/box.rar",
        "/w/box.rar.__extracting__",
        "/w/box.rar",
        &Vec::new(),
    )
    .unwrap();
    assert_eq!(
        plan,
        ExtractionPlan::RunTool(ToolCommand {
            program: "7z".to_string(),
            args: vec![
                "x".to_string(),
                "-y".to_string(),
                "-o/w/box.rar".to_string(),
                "/w/box.rar.__extracting__".to_string(),
            ],
        })
    );
}

#[test]
fn zip_traversal_entry_fails_the_task() {
    // An entry trying to climb out of the destination fails the whole task
    // cleanly; nothing is written, inside or outside.
    let data = zip_bytes(&[("../evil", b"x"), ("ok.txt", b"fine")]);
    let err = plan_for_variant(ExtractorVariant::Zip, "/w/box.zip", "/w/box.zip", "/w/box.zip", &data)
        .unwrap_err();
    assert_eq!(err, ExtractError::UnsafeEntryPath("../evil".to_string()));
    let data = zip_bytes(&[("/abs/evil", b"y")]);
    let err = plan_for_variant(ExtractorVariant::Zip, "/w/box.zip", "/w/box.zip", "/w/box.zip", &data)
        .unwrap_err();
    assert_eq!(err, ExtractError::UnsafeEntryPath("/abs/evil".to_string()));
}

#[test]
fn sevenz_traversal_entry_fails_the_task() {
    let data = sevenz_bytes(&[("../evil", b"x")]);
    let err = plan_for_variant(ExtractorVariant::SevenZip, "/w/box.7z", "/w/box.7z", "/w/box.7z", &data)
        .unwrap_err();
    assert_eq!(err, ExtractError::UnsafeEntryPath("../evil".to_string()));
}

/// One raw ustar-era entry, header and padded data; the writer side of the
/// tar crate refuses `..` in names, so the hostile entry is laid out by
/// hand.
fn raw_tar_entry(name: &str, data: &[u8]) -> Vec<u8> {
    let mut h = [0u8; 512];
    h[..name.len()].copy_from_slice(name.as_bytes());
    h[100..107].copy_from_slice(b"0000644");
    h[108..115].copy_from_slice(b"0000000");
    h[116..123].copy_from_slice(b"0000000");
    let size = format!("{:011o}", data.len());
    h[124..135].copy_from_slice(size.as_bytes());
    h[136..147].copy_from_slice(b"00000000000");
    h[156] = b'0';
    for b in h[148..156].iter_mut() {
        *b = b' ';
    }
    let sum: u32 = h.iter().map(|b| u32::from(*b)).sum();
    let ck = format!("{:06o}\0 ", sum);
    h[148..156].copy_from_slice(ck.as_bytes());
    let mut out = h.to_vec();
    out.extend_from_slice(data);
    out.resize(out.len() + (512 - data.len() % 512) % 512, 0);
    out
}

#[test]
fn tar_traversal_entries_are_dropped() {
    // The tar strategy leans on a tar reader's own entry-path handling:
    // an escaping entry is dropped, the honest one is still written.
    let mut data = raw_tar_entry("../evil", b"x");
    data.extend_from_slice(&raw_tar_entry("ok.txt", b"fine"));
    data.resize(data.len() + 1024, 0);
    let plan = plan_for_variant(ExtractorVariant::TarGz, "/w/p.tar", "/w/p.tar", "/w/p.tar", &data)
        .unwrap();
    assert_eq!(
        actions_of(plan),
        vec![FsAction::WriteFile("/w/p.tar/ok.txt".to_string(), b"fine".to_vec())]
    );
}

#[test]
fn gz_with_traversal_stem_fails_the_task() {
    // A source named "...gz" has the stem "..": writing it would land
    // beside the destination, so the task fails instead.
    let data = gz_bytes(b"body");
    let err =
        plan_for_variant(ExtractorVariant::TarGz, "/w/...gz", "/w/...gz", "/w/...gz", &data).unwrap_err();
    assert_eq!(err, ExtractError::UnsafeEntryPath("..".to_string()));
}

#[test]
fn garbage_bytes_are_a_bad_archive() {
    let garbage = b"this is not an archive".to_vec();
    assert!(matches!(
        plan_for_variant(ExtractorVariant::Zip, "/w/a.zip", "/w/a.zip", "/w/a.zip", &garbage),
        Err(ExtractError::BadArchive(_))
    ));
    assert!(matches!(
        plan_for_variant(ExtractorVariant::SevenZip, "/w/a.7z", "/w/a.7z", "/w/a.7z", &garbage),
        Err(ExtractError::BadArchive(_))
    ));
    assert!(matches!(
        plan_for_variant(ExtractorVariant::TarGz, "/w/a.tar.gz", "/w/a.tar.gz", "/w/a.tar.gz", &garbage),
        Err(ExtractError::BadArchive(_))
    ));
    assert!(matches!(
        plan_for_variant(ExtractorVariant::TarGz, "/w/a.txt.gz", "/w/a.txt.gz", "/w/a.txt.gz", &garbage),
        Err(ExtractError::BadArchive(_))
    ));
}

#[test]
fn duplicate_dispatch_plans_identically() {
    // Two workers racing on one path plan the very same actions: the
    // second write repeats the first byte for byte instead of corrupting
    // it.
    let data = zip_bytes(&[("inner.txt", b"hi")]);
    let first = plan_for_variant(ExtractorVariant::Zip, "/w/sample.zip", "/w/sample.zip", "/w/sample.zip", &data)
        .unwrap();
    let second = plan_for_variant(ExtractorVariant::Zip, "/w/sample.zip", "/w/sample.zip", "/w/sample.zip", &data)
        .unwrap();
    assert_eq!(first, second);
}

#[test]
fn directory_entries_become_directories() {
    let mut w = zip::ZipWriter::new(std::io::Cursor::new(Vec::new()));
    let opts = zip::write::SimpleFileOptions::default()
        .compression_method(zip::CompressionMethod::Stored);
    w.add_directory("sub", opts).unwrap();
    w.start_file("sub/f.txt", opts).unwrap();
    std::io::Write::write_all(&mut w, b"deep").unwrap();
    let data = w.finish().unwrap().into_inner();
    let plan = plan_for_variant(ExtractorVariant::Zip, "/w/d.zip", "/w/d.zip", "/w/d.zip", &data).unwrap();
    assert_eq!(
        actions_of(plan),
        vec![
            FsAction::MakeDir("/w/d.zip/sub/".to_string()),
            FsAction::WriteFile("/w/d.zip/sub/f.txt".to_string(), b"deep".to_vec()),
        ]
    );
}

#[test]
fn unmatched_tar_suffix_plans_nothing() {
    // The tar/gzip strategy does nothing for a name outside its suffixes.
    let data = b"anything".to_vec();
    let plan = plan_for_variant(ExtractorVariant::TarGz, "/w/x.tgz2", "/w/x.tgz2", "/w/x.tgz2", &data).unwrap();
    assert_eq!(actions_of(plan), Vec::<FsAction>::new());
}
