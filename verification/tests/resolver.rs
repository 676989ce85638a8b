//! The destination resolver's decisions, the stability gate's budget, the
//! name-level classification, and the platform lookup.

use unzipper::gate::{GateDecision, StabilityGate};
use unzipper::names::is_processable_archive_extension;
use unzipper::paths::{build_dest_dir_with_extension, is_processable_path};
use unzipper::platform::{default_downloads_dir, Platform};
use unzipper::resolve::{DestinationResolver, ProbeResult, ResolveAction};

#[test]
fn dest_dir_is_named_after_the_source() {
    assert_eq!(build_dest_dir_with_extension("/w/sample.zip"), "/w/sample.zip");
    assert_eq!(build_dest_dir_with_extension("box.7z"), "box.7z");
    assert_eq!(build_dest_dir_with_extension("/root.zip"), "/root.zip");
}

#[test]
fn dest_dir_strips_invalid_characters() {
    assert_eq!(build_dest_dir_with_extension("/w/a<b>c:d\"e|f?g*h.zip"), "/w/abcdefgh.zip");
    assert_eq!(build_dest_dir_with_extension("/w/back\\slash.tar"), "/w/backslash.tar");
}

#[test]
fn resolving_twice_on_existing_dir_is_idempotent() {
    // The destination directory already exists: both resolutions return it
    // as it stands, asking for no rename and no creation.
    let (mut r1, a1) = DestinationResolver::begin("/w/x.zip");
    assert_eq!(a1, ResolveAction::Probe("/w/x.zip".to_string()));
    let d1 = r1.on_probe(ProbeResult::Directory);
    assert_eq!(d1, ResolveAction::Reuse("/w/x.zip".to_string()));

    let (mut r2, a2) = DestinationResolver::begin("/w/x.zip");
    assert_eq!(a2, ResolveAction::Probe("/w/x.zip".to_string()));
    let d2 = r2.on_probe(ProbeResult::Directory);
    assert_eq!(d1, d2);
}

#[test]
fn colliding_file_is_renamed_aside() {
    // A file named like the destination (the archive itself) occupies the
    // name: the resolver renames it to a fresh alias and still creates the
    // directory literally named after the candidate.
    let (mut r, _) = DestinationResolver::begin("/w/x.zip");
    let a = r.on_probe(ProbeResult::NonDirectory);
    assert_eq!(a, ResolveAction::Probe("/w/x.zip.__extracting__".to_string()));
    let a = r.on_probe(ProbeResult::Missing);
    assert_eq!(
        a,
        ResolveAction::RenameThenCreate {
            alias: "/w/x.zip.__extracting__".to_string(),
            dest: "/w/x.zip".to_string(),
        }
    );
}

#[test]
fn occupied_aliases_get_fresh_counters() {
    let (mut r, _) = DestinationResolver::begin("/w/x.zip");
    r.on_probe(ProbeResult::NonDirectory);
    let a = r.on_probe(ProbeResult::NonDirectory);
    assert_eq!(a, ResolveAction::Probe("/w/x.zip.__extracting__1".to_string()));
    let a = r.on_probe(ProbeResult::Directory);
    assert_eq!(a, ResolveAction::Probe("/w/x.zip.__extracting__2".to_string()));
    let a = r.on_probe(ProbeResult::Missing);
    assert_eq!(
        a,
        ResolveAction::RenameThenCreate {
            alias: "/w/x.zip.__extracting__2".to_string(),
            dest: "/w/x.zip".to_string(),
        }
    );
}

#[test]
fn alias_counters_reach_two_digits() {
    let (mut r, _) = DestinationResolver::begin("/w/x.zip");
    r.on_probe(ProbeResult::NonDirectory);
    for _ in 0..9 {
        r.on_probe(ProbeResult::NonDirectory);
    }
    let a = r.on_probe(ProbeResult::NonDirectory);
    assert_eq!(a, ResolveAction::Probe("/w/x.zip.__extracting__10".to_string()));
    let a = r.on_probe(ProbeResult::Missing);
    assert_eq!(
        a,
        ResolveAction::RenameThenCreate {
            alias: "/w/x.zip.__extracting__10".to_string(),
            dest: "/w/x.zip".to_string(),
        }
    );
}

#[test]
fn names_outside_ascii_are_kept() {
    assert_eq!(build_dest_dir_with_extension("/w/héllo*.zip"), "/w/héllo.zip");
    assert!(is_processable_path("/w/héllo.ZIP"));
}

#[test]
fn missing_destination_is_created_fresh() {
    let (mut r, _) = DestinationResolver::begin("/w/y.rar");
    let a = r.on_probe(ProbeResult::Missing);
    assert_eq!(a, ResolveAction::CreateFresh("/w/y.rar".to_string()));
}

#[test]
fn gate_gives_up_after_its_budget() {
    // A size that keeps oscillating still passes once the attempts are
    // exhausted: a soft timeout, not a hard guarantee.
    let mut gate = StabilityGate::new(5);
    assert_eq!(gate.observe(Some(1)), GateDecision::Again);
    assert_eq!(gate.observe(Some(2)), GateDecision::Again);
    assert_eq!(gate.observe(Some(3)), GateDecision::Again);
    assert_eq!(gate.observe(Some(4)), GateDecision::Again);
    assert_eq!(gate.observe(Some(5)), GateDecision::Exhausted);
}

#[test]
fn gate_swallows_failed_reads() {
    // A read error spends an attempt but forgets nothing: the previous
    // size still counts when the next read agrees.
    let mut gate = StabilityGate::new(4);
    assert_eq!(gate.observe(Some(7)), GateDecision::Again);
    assert_eq!(gate.observe(None), GateDecision::Again);
    assert_eq!(gate.observe(Some(7)), GateDecision::Stable);
}

#[test]
fn processable_extensions_are_the_closed_set() {
    assert!(is_processable_archive_extension("zip"));
    assert!(is_processable_archive_extension("RAR"));
    assert!(is_processable_archive_extension("7z"));
    assert!(is_processable_archive_extension("Tar"));
    assert!(is_processable_archive_extension("GZ"));
    assert!(!is_processable_archive_extension("txt"));
    assert!(!is_processable_archive_extension("part"));
    assert!(!is_processable_archive_extension(""));
}

#[test]
fn processable_paths_go_by_their_extension() {
    assert!(is_processable_path("/w/a.zip"));
    assert!(is_processable_path("/w/a.tar.GZ"));
    assert!(!is_processable_path("/w/a.zip.part"));
    assert!(!is_processable_path("/w/download.zip.part"));
    assert!(!is_processable_path("/w/noext"));
    assert!(!is_processable_path("/w/.zip"));
}

#[test]
fn entry_name_safety_is_exact() {
    let check = |s: &str| {
        let cs: Vec<char> = s.chars().collect();
        unzipper::entries::check_entry_name(&cs)
    };
    assert!(check("ok.txt"));
    assert!(check("sub/dir/file"));
    assert!(check("dotted..name"));
    assert!(check("./here"));
    assert!(!check("../evil"));
    assert!(!check("/abs/evil"));
    assert!(!check("a/../evil"));
    assert!(!check("a/.."));
    assert!(!check(""));
}

#[test]
fn linux_lookup_honours_the_config() {
    let config = "# comment\n  XDG_DOWNLOAD_DIR=\"$HOME/Down loads\"  \nXDG_MUSIC_DIR=\"$HOME/Music\"\n";
    assert_eq!(
        default_downloads_dir(Platform::Linux, "/home/u", Some(config)),
        "/home/u/Down loads"
    );
    let absolute = "XDG_DOWNLOAD_DIR=\"/data/incoming\"\n";
    assert_eq!(
        default_downloads_dir(Platform::Linux, "/home/u", Some(absolute)),
        "/data/incoming"
    );
}

#[test]
fn linux_lookup_falls_back_to_downloads() {
    assert_eq!(default_downloads_dir(Platform::Linux, "/home/u", None), "/home/u/Downloads");
    let unrelated = "XDG_MUSIC_DIR=\"$HOME/Music\"\n";
    assert_eq!(
        default_downloads_dir(Platform::Linux, "/home/u", Some(unrelated)),
        "/home/u/Downloads"
    );
}

#[test]
fn other_platforms_use_home_downloads() {
    assert_eq!(default_downloads_dir(Platform::MacOs, "/Users/u", None), "/Users/u/Downloads");
    assert_eq!(
        default_downloads_dir(Platform::Windows, "C:\\Users\\u", None),
        "C:\\Users\\u/Downloads"
    );
}
