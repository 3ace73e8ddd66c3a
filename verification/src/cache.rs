//! The font metadata cache.
//!
//! The cache holds the ordered sequence of discovered font records plus a
//! `loaded` flag. Population happens at most once: the first read walks the
//! supplied directory listings in order, appends a record for every entry
//! that passes the applicability filter, and latches `loaded`. A directory
//! whose enumeration failed is skipped silently; that is not an error, and
//! `loaded` still latches. Every later read, and every later population
//! attempt, serves the memoized sequence unchanged.

use vstd::prelude::*;
use crate::font::FontInfo;
use crate::font::FontInfoView;
use crate::parser::font_info_of;
use crate::parser::has_font_extension;
use crate::parser::parse_font_file;
use crate::parser::qualifies;

verus! {

/// Mathematical image of a [`DirEntry`].
pub ghost struct DirEntryView {
    pub file_name: Seq<char>,
    pub path: Seq<char>,
}

/// One entry observed while enumerating a directory: the bare file name and
/// the full path of the file.
pub struct DirEntry {
    pub file_name: String,
    pub path: String,
}

impl View for DirEntry {
    type V = DirEntryView;

    open spec fn view(&self) -> DirEntryView {
        DirEntryView { file_name: self.file_name@, path: self.path@ }
    }
}

/// Mathematical image of a [`DirectoryListing`].
pub ghost struct DirectoryListingView {
    pub entries: Option<Seq<DirEntryView>>,
}

/// The outcome of enumerating one candidate directory: its entries in
/// enumeration order, or `None` when the directory could not be read
/// (missing, unreadable, permission denied).
pub struct DirectoryListing {
    pub entries: Option<Vec<DirEntry>>,
}

impl View for DirectoryListing {
    type V = DirectoryListingView;

    open spec fn view(&self) -> DirectoryListingView {
        DirectoryListingView {
            entries: match self.entries {
                Some(es) => Some(es@.map_values(|e: DirEntry| e@)),
                None => None,
            },
        }
    }
}

/// The views of a sequence of listings.
pub open spec fn listing_views(listings: Seq<DirectoryListing>) -> Seq<DirectoryListingView> {
    listings.map_values(|l: DirectoryListing| l@)
}

/// The font records derived from the entries of one directory, in
/// enumeration order: one record per entry that passes the applicability
/// filter.
pub open spec fn fonts_of_entries(entries: Seq<DirEntryView>) -> Seq<FontInfoView>
    decreases entries.len(),
{
    if entries.len() == 0 {
        Seq::empty()
    } else {
        fonts_of_entries(entries.drop_last()) + if qualifies(entries.last().file_name) {
            seq![font_info_of(entries.last().file_name, entries.last().path)]
        } else {
            Seq::empty()
        }
    }
}

/// The font records derived from one listing: none when its enumeration
/// failed.
pub open spec fn fonts_of_listing(listing: DirectoryListingView) -> Seq<FontInfoView> {
    match listing.entries {
        Some(es) => fonts_of_entries(es),
        None => Seq::empty(),
    }
}

/// The font records derived from a sequence of listings, in listing order.
pub open spec fn fonts_of_listings(listings: Seq<DirectoryListingView>) -> Seq<FontInfoView>
    decreases listings.len(),
{
    if listings.len() == 0 {
        Seq::empty()
    } else {
        fonts_of_listings(listings.drop_last()) + fonts_of_listing(listings.last())
    }
}

/// The end of the pagination window starting at `start`: `start + page_size`
/// clamped to `len`.
pub open spec fn page_end(start: int, page_size: int, len: int) -> int {
    if start + page_size <= len {
        start + page_size
    } else {
        len
    }
}

/// The pagination window of `fonts` for a zero-based page index and a page
/// size: the records from `page * page_size` up to `page_end`, or the empty
/// sequence when the window starts at or past the end.
pub open spec fn page_of(fonts: Seq<FontInfoView>, page: int, page_size: int) -> Seq<
    FontInfoView,
> {
    let start = page * page_size;
    if start >= fonts.len() {
        Seq::empty()
    } else {
        fonts.subrange(start, page_end(start, page_size, fonts.len() as int))
    }
}

/// Mathematical image of a [`FontCache`].
pub ghost struct FontCacheView {
    pub fonts: Seq<FontInfoView>,
    pub loaded: bool,
}

/// The full font listing a loaded cache serves.
pub open spec fn all_fonts_of(cache: FontCacheView) -> Seq<FontInfoView> {
    cache.fonts
}

/// The count a loaded cache reports.
pub open spec fn font_count_of(cache: FontCacheView) -> nat {
    cache.fonts.len()
}

/// The cache: the discovered font records plus the `loaded` latch.
pub struct FontCache {
    fonts: Vec<FontInfo>,
    loaded: bool,
}

impl View for FontCache {
    type V = FontCacheView;

    closed spec fn view(&self) -> FontCacheView {
        FontCacheView {
            fonts: self.fonts@.map_values(|f: FontInfo| f@),
            loaded: self.loaded,
        }
    }
}

/// How a population attempt relates the new cache state to the old: the
/// `loaded` latch is set, and the record sequence is the old one when the
/// cache was already loaded, else the one derived from the listings.
pub open spec fn populated(
    old_cache: FontCacheView,
    new_cache: FontCacheView,
    listings: Seq<DirectoryListingView>,
) -> bool {
    &&& new_cache.loaded
    &&& new_cache.fonts == if old_cache.loaded {
        old_cache.fonts
    } else {
        fonts_of_listings(listings)
    }
}

impl FontCache {
    /// The cache is populated at most once: records exist only once the
    /// `loaded` latch is set.
    #[verifier::type_invariant]
    spec fn wf(self) -> bool {
        !self.loaded ==> self.fonts@.len() == 0
    }

    /// A fresh cache: no records, not yet loaded.
    pub fn new() -> (cache: FontCache)
        ensures
            cache@.fonts == Seq::<FontInfoView>::empty(),
            !cache@.loaded,
    {
        let cache = FontCache { fonts: Vec::new(), loaded: false };
        proof {
            assert(cache@.fonts =~= Seq::<FontInfoView>::empty());
        }
        cache
    }

    /// Whether the one-time population has already happened.
    pub fn is_loaded(&self) -> (r: bool)
        ensures
            r == self@.loaded,
    {
        self.loaded
    }

    /// Populate the cache from the supplied directory listings, once.
    ///
    /// A no-op when the cache is already loaded. Otherwise every listing is
    /// walked in order; a failed enumeration (`entries` absent) is skipped
    /// silently, and each entry passing the applicability filter is parsed
    /// and appended. The `loaded` latch is set in either case: population
    /// cannot fail outwardly.
    pub fn populate(&mut self, listings: &Vec<DirectoryListing>)
        ensures
            populated(old(self)@, final(self)@, listing_views(listings@)),
            old(self)@.loaded ==> final(self)@ == old(self)@,
    {
        proof {
            use_type_invariant(&*self);
        }
        if self.loaded {
            return;
        }
        let ghost lvs = listing_views(listings@);
        let mut fonts: Vec<FontInfo> = Vec::new();
        let mut di: usize = 0;
        while di < listings.len()
            invariant
                di <= listings.len(),
                lvs == listing_views(listings@),
                lvs.len() == listings@.len(),
                fonts@.map_values(|f: FontInfo| f@) == fonts_of_listings(
                    lvs.subrange(0, di as int),
                ),
            decreases listings.len() - di,
        {
            let ghost fonts_before = fonts@.map_values(|f: FontInfo| f@);
            match &listings[di].entries {
                Some(entries) => {
                    let ghost evs = entries@.map_values(|e: DirEntry| e@);
                    let mut ei: usize = 0;
                    while ei < entries.len()
                        invariant
                            ei <= entries.len(),
                            evs == entries@.map_values(|e: DirEntry| e@),
                            evs.len() == entries@.len(),
                            fonts@.map_values(|f: FontInfo| f@) == fonts_before
                                + fonts_of_entries(evs.subrange(0, ei as int)),
                        decreases entries.len() - ei,
                    {
                        let entry = &entries[ei];
                        if has_font_extension(entry.file_name.as_str()) {
                            let info = parse_font_file(
                                entry.file_name.as_str(),
                                entry.path.as_str(),
                            );
                            let ghost fonts_pre = fonts@.map_values(|f: FontInfo| f@);
                            fonts.push(info);
                            proof {
                                assert(fonts@.map_values(|f: FontInfo| f@) =~= fonts_pre.push(
                                    info@,
                                ));
                            }
                        }
                        proof {
                            assert(evs.subrange(0, ei + 1).drop_last() =~= evs.subrange(
                                0,
                                ei as int,
                            ));
                            assert(evs.subrange(0, ei + 1).last() == evs[ei as int]);
                        }
                        ei = ei + 1;
                    }
                    proof {
                        assert(evs.subrange(0, entries@.len() as int) =~= evs);
                    }
                },
                None => {},
            }
            proof {
                assert(lvs.subrange(0, di + 1).drop_last() =~= lvs.subrange(0, di as int));
                assert(lvs.subrange(0, di + 1).last() == lvs[di as int]);
            }
            di = di + 1;
        }
        proof {
            assert(lvs.subrange(0, listings@.len() as int) =~= lvs);
        }
        *self = FontCache { fonts, loaded: true };
    }

    /// Return a copy of the full record sequence, in its discovery order,
    /// populating the cache first if needed. Always succeeds; the error
    /// channel exists for interface compatibility and is never used.
    pub fn get_all_fonts(&mut self, listings: &Vec<DirectoryListing>) -> (r: Result<
        Vec<FontInfo>,
        String,
    >)
        ensures
            populated(old(self)@, final(self)@, listing_views(listings@)),
            old(self)@.loaded ==> final(self)@ == old(self)@,
            r matches Ok(fonts) && fonts@.map_values(|f: FontInfo| f@) == all_fonts_of(
                final(self)@,
            ),
    {
        self.populate(listings);
        let n = self.fonts.len();
        let out = copy_font_range(&self.fonts, 0, n);
        proof {
            assert(self@.fonts.subrange(0, self@.fonts.len() as int) =~= self@.fonts);
        }
        Ok(out)
    }

    /// Return the pagination window for a zero-based `page` index and a
    /// `page_size`, populating the cache first if needed. A window starting
    /// at or past the end of the record sequence is empty; a zero page size
    /// yields an empty window for every page. Always succeeds.
    pub fn get_paginated_fonts(
        &mut self,
        page: usize,
        page_size: usize,
        listings: &Vec<DirectoryListing>,
    ) -> (r: Result<Vec<FontInfo>, String>)
        ensures
            populated(old(self)@, final(self)@, listing_views(listings@)),
            old(self)@.loaded ==> final(self)@ == old(self)@,
            r matches Ok(fonts) && fonts@.map_values(|f: FontInfo| f@) == page_of(
                all_fonts_of(final(self)@),
                page as int,
                page_size as int,
            ),
            (page as int) * (page_size as int) >= font_count_of(final(self)@) ==> (
            r matches Ok(fonts) && fonts@.len() == 0),
    {
        self.populate(listings);
        let len = self.fonts.len();
        match page.checked_mul(page_size) {
            None => {
                // The window start exceeds any representable length.
                Ok(Vec::new())
            },
            Some(start) => {
                if start >= len {
                    Ok(Vec::new())
                } else {
                    let end = if page_size <= len - start {
                        start + page_size
                    } else {
                        len
                    };
                    let out = copy_font_range(&self.fonts, start, end);
                    Ok(out)
                }
            },
        }
    }

    /// Return the number of discovered records, populating the cache first
    /// if needed. Always succeeds.
    pub fn get_font_count(&mut self, listings: &Vec<DirectoryListing>) -> (r: Result<
        usize,
        String,
    >)
        ensures
            populated(old(self)@, final(self)@, listing_views(listings@)),
            old(self)@.loaded ==> final(self)@ == old(self)@,
            r matches Ok(n) && n == font_count_of(final(self)@),
    {
        self.populate(listings);
        Ok(self.fonts.len())
    }
}

/// A copy of the records of `v` in positions `[start, end)`.
fn copy_font_range(v: &Vec<FontInfo>, start: usize, end: usize) -> (out: Vec<FontInfo>)
    requires
        start <= end <= v@.len(),
    ensures
        out@.map_values(|f: FontInfo| f@) == v@.map_values(|f: FontInfo| f@).subrange(
            start as int,
            end as int,
        ),
{
    let mut out: Vec<FontInfo> = Vec::new();
    proof {
        assert(out@.map_values(|f: FontInfo| f@) =~= v@.map_values(|f: FontInfo| f@).subrange(
            start as int,
            start as int,
        ));
    }
    let mut i: usize = start;
    while i < end
        invariant
            start <= i <= end <= v@.len(),
            out@.map_values(|f: FontInfo| f@) == v@.map_values(|f: FontInfo| f@).subrange(
                start as int,
                i as int,
            ),
        decreases end - i,
    {
        let ghost pre = out@.map_values(|f: FontInfo| f@);
        out.push(v[i].clone());
        proof {
            assert(out@.map_values(|f: FontInfo| f@) =~= pre.push(v@[i as int]@));
            assert(v@.map_values(|f: FontInfo| f@).subrange(start as int, i + 1) =~= v@.map_values(
                |f: FontInfo| f@,
            ).subrange(start as int, i as int).push(v@[i as int]@));
        }
        i = i + 1;
    }
    out
}

} // verus!
