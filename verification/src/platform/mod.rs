//! The default directory to watch when none is configured, per platform.
//!
//! The lookup consumes plain values the surrounding process reads for it:
//! the home directory (`HOME` or `USERPROFILE`, with `.` standing in for a
//! missing one) and, on Linux, the contents of `~/.config/user-dirs.dirs`
//! where that file could be read.

use vstd::prelude::*;

pub mod linux;
pub mod macos;
pub mod windows;

verus! {

/// The platform whose convention decides the default directory.
#[derive(PartialEq, Eq, Structural, Clone, Copy, Debug)]
pub enum Platform {
    Windows,
    MacOs,
    Linux,
}

/// The default downloads directory for a platform: `<home>/Downloads`,
/// except that Linux honours an `XDG_DOWNLOAD_DIR` line in the user-dirs
/// configuration when one is there.
pub fn default_downloads_dir(os: Platform, home: &str, config: Option<&str>) -> (r: String)
    ensures
        match os {
            Platform::Windows => r@ == home@ + "/Downloads"@,
            Platform::MacOs => r@ == home@ + "/Downloads"@,
            Platform::Linux => r@ == linux::downloads_dir_of(
                home@,
                match config {
                    Some(c) => Some(c@),
                    None => None,
                },
            ),
        },
{
    match os {
        Platform::Windows => windows::default_downloads_dir(home),
        Platform::MacOs => macos::default_downloads_dir(home),
        Platform::Linux => linux::default_downloads_dir(home, config),
    }
}

} // verus!
