//! Laws of the cache: properties that hold of every cache state, stated and
//! proved over the mathematical model that the contracts use.

use vstd::prelude::*;
use crate::cache::fonts_of_listings;
use crate::cache::all_fonts_of;
use crate::cache::font_count_of;
use crate::cache::page_end;
use crate::cache::page_of;
use crate::cache::populated;
use crate::cache::DirectoryListingView;
use crate::cache::FontCacheView;
use crate::catalog::spec_directories_for;
use crate::catalog::TargetOs;
use crate::font::FontInfoView;

verus! {

/// Population is idempotent: once a population attempt has run, a further
/// attempt, with whatever listings, leaves the record sequence unchanged —
/// no duplication, no re-scan.
pub proof fn lemma_populate_idempotent(
    before: FontCacheView,
    once: FontCacheView,
    twice: FontCacheView,
    first_listings: Seq<DirectoryListingView>,
    second_listings: Seq<DirectoryListingView>,
)
    requires
        populated(before, once, first_listings),
        populated(once, twice, second_listings),
    ensures
        twice.fonts == once.fonts,
{
}

/// The reported font count always equals the length of the full listing.
pub proof fn lemma_count_consistency(cache: FontCacheView)
    ensures
        font_count_of(cache) == all_fonts_of(cache).len(),
{
}

/// A pagination window whose start lies at or past the end of the record
/// sequence is empty.
pub proof fn lemma_out_of_range_page(fonts: Seq<FontInfoView>, page: int, page_size: int)
    requires
        page * page_size >= fonts.len(),
    ensures
        page_of(fonts, page, page_size) == Seq::<FontInfoView>::empty(),
{
}

/// The concatenation of the pages below `upto`, in page order.
pub open spec fn concat_pages(fonts: Seq<FontInfoView>, page_size: int, upto: int) -> Seq<
    FontInfoView,
>
    decreases upto,
{
    if upto <= 0 {
        Seq::empty()
    } else {
        concat_pages(fonts, page_size, upto - 1) + page_of(fonts, upto - 1, page_size)
    }
}

/// The pages below `upto` concatenate to the prefix of the record sequence
/// that they reach: the first `upto * page_size` records, clamped to the end.
proof fn lemma_concat_pages_prefix(fonts: Seq<FontInfoView>, page_size: int, upto: int)
    requires
        page_size > 0,
        upto >= 0,
    ensures
        concat_pages(fonts, page_size, upto) == fonts.subrange(
            0,
            page_end(0, upto * page_size, fonts.len() as int),
        ),
    decreases upto,
{
    let len = fonts.len() as int;
    if upto == 0 {
        assert(concat_pages(fonts, page_size, 0) =~= fonts.subrange(
            0,
            page_end(0, 0, len),
        ));
    } else {
        lemma_concat_pages_prefix(fonts, page_size, upto - 1);
        assert(upto * page_size == (upto - 1) * page_size + page_size) by (nonlinear_arith);
        assert((upto - 1) * page_size >= 0) by (nonlinear_arith)
            requires
                upto >= 1,
                page_size > 0,
        ;
        let prev = (upto - 1) * page_size;
        let cur = upto * page_size;
        if prev >= len {
            assert(page_of(fonts, upto - 1, page_size) =~= Seq::<FontInfoView>::empty());
            assert(concat_pages(fonts, page_size, upto) =~= fonts.subrange(
                0,
                page_end(0, cur, len),
            ));
        } else {
            assert(concat_pages(fonts, page_size, upto) =~= fonts.subrange(
                0,
                page_end(0, cur, len),
            ));
        }
    }
}

/// Pagination coverage: for any positive page size, concatenating the pages
/// from page zero up to any count whose window reaches the end of the record
/// sequence reproduces the full listing exactly, in order, with no gaps or
/// overlaps; and the next page is empty.
pub proof fn lemma_pagination_coverage(fonts: Seq<FontInfoView>, page_size: int, upto: int)
    requires
        page_size > 0,
        upto >= 0,
        upto * page_size >= fonts.len(),
    ensures
        concat_pages(fonts, page_size, upto) == fonts,
        page_of(fonts, upto, page_size) == Seq::<FontInfoView>::empty(),
{
    lemma_concat_pages_prefix(fonts, page_size, upto);
    assert(concat_pages(fonts, page_size, upto) =~= fonts);
}

/// A directory whose enumeration failed contributes nothing: dropping its
/// listing leaves the derived record sequence unchanged, so the fonts of
/// every readable directory are still present.
pub proof fn lemma_failed_listing_skipped(listings: Seq<DirectoryListingView>, i: int)
    requires
        0 <= i < listings.len(),
        listings[i].entries is None,
    ensures
        fonts_of_listings(listings) == fonts_of_listings(listings.remove(i)),
    decreases listings.len(),
{
    if i == listings.len() - 1 {
        assert(listings.remove(i) =~= listings.drop_last());
        assert(fonts_of_listings(listings) =~= fonts_of_listings(listings.drop_last()));
    } else {
        lemma_failed_listing_skipped(listings.drop_last(), i);
        assert(listings.drop_last().remove(i) =~= listings.remove(i).drop_last());
        assert(listings.remove(i).last() == listings.last());
        assert(fonts_of_listings(listings) =~= fonts_of_listings(listings.remove(i)));
    }
}

/// An operating system that maps to no font directories yields no fonts:
/// the catalog for an unsupported system is empty, and an empty set of
/// listings derives an empty record sequence.
pub proof fn lemma_unsupported_os_yields_no_fonts(home: Seq<char>)
    ensures
        spec_directories_for(TargetOs::Other, home).len() == 0,
        fonts_of_listings(Seq::<DirectoryListingView>::empty()) == Seq::<FontInfoView>::empty(),
{
}

} // verus!
