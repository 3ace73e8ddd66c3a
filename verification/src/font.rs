//! The font record: one entry per discovered font file.

use vstd::prelude::*;

verus! {

/// Mathematical image of a [`FontInfo`] record: each field as a sequence of
/// characters.
pub ghost struct FontInfoView {
    pub name: Seq<char>,
    pub path: Seq<char>,
    pub family: Seq<char>,
    pub style: Seq<char>,
}

/// Metadata for one discovered font file.
///
/// `name` is the file name with everything from its first `.` on removed;
/// `family` is the part of `name` before its first `-` (all of `name` if it
/// has none); `style` is the part of `name` between its first and second `-`,
/// or `"Regular"` when that part is empty or absent. `path` is the full path
/// of the source file.
pub struct FontInfo {
    pub name: String,
    pub path: String,
    pub family: String,
    pub style: String,
}

impl View for FontInfo {
    type V = FontInfoView;

    open spec fn view(&self) -> FontInfoView {
        FontInfoView {
            name: self.name@,
            path: self.path@,
            family: self.family@,
            style: self.style@,
        }
    }
}

impl Clone for FontInfo {
    fn clone(&self) -> (r: Self)
        ensures
            r@ == self@,
    {
        FontInfo {
            name: self.name.clone(),
            path: self.path.clone(),
            family: self.family.clone(),
            style: self.style.clone(),
        }
    }
}

} // verus!
