//! The macOS convention: the `Downloads` folder under the home directory.

use vstd::prelude::*;

use crate::chars::{chars_to_string, push_all, str_to_chars};

verus! {

/// `<home>/Downloads`.
pub fn default_downloads_dir(home: &str) -> (r: String)
    ensures
        r@ == home@ + "/Downloads"@,
{
    let mut cs = str_to_chars(home);
    let suffix = str_to_chars("/Downloads");
    push_all(&mut cs, &suffix);
    chars_to_string(&cs)
}

} // verus!
