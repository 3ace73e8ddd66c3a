//! The directory catalog: a pure mapping from a target operating system to
//! the ordered list of candidate font directories.
//!
//! Windows gets a fixed two-entry list, macOS a fixed four-entry list whose
//! last entry depends on the resolved home directory, and every other system
//! gets an empty list: unsupported platforms yield zero fonts rather than an
//! error. No filesystem access happens here.

use vstd::prelude::*;
use vstd::string::StringExecFns;

verus! {

/// The operating systems the catalog distinguishes.
#[derive(Clone, Copy)]
pub enum TargetOs {
    Windows,
    MacOs,
    Other,
}

/// The ordered candidate font directories for `os`. On macOS the last entry
/// is derived from `home`, the resolved home directory (possibly empty, which
/// yields a path that will simply fail to enumerate).
pub open spec fn spec_directories_for(os: TargetOs, home: Seq<char>) -> Seq<Seq<char>> {
    match os {
        TargetOs::Windows => seq![
            "C:\\Windows\\Fonts"@,
            "C:\\Users\\Public\\AppData\\Local\\Microsoft\\Windows\\Fonts"@,
        ],
        TargetOs::MacOs => seq![
            "/System/Library/Fonts"@,
            "/Library/Fonts"@,
            "/Users/Shared/Library/Fonts"@,
            home + "/Library/Fonts"@,
        ],
        TargetOs::Other => Seq::empty(),
    }
}

/// Produce the candidate font directories for `os`, in catalog order.
pub fn directories_for(os: TargetOs, home: &str) -> (r: Vec<String>)
    ensures
        r.deep_view() == spec_directories_for(os, home@),
{
    let mut dirs: Vec<String> = Vec::new();
    match os {
        TargetOs::Windows => {
            dirs.push("C:\\Windows\\Fonts".to_owned());
            dirs.push("C:\\Users\\Public\\AppData\\Local\\Microsoft\\Windows\\Fonts".to_owned());
        },
        TargetOs::MacOs => {
            dirs.push("/System/Library/Fonts".to_owned());
            dirs.push("/Library/Fonts".to_owned());
            dirs.push("/Users/Shared/Library/Fonts".to_owned());
            let mut home_fonts = home.to_owned();
            home_fonts.append("/Library/Fonts");
            dirs.push(home_fonts);
        },
        TargetOs::Other => {},
    }
    proof {
        assert(dirs.deep_view() =~= spec_directories_for(os, home@));
    }
    dirs
}

} // verus!
