use font_cache::DirEntry;
use font_cache::DirectoryListing;
use font_cache::FontCache;
use font_cache::FontInfo;

fn entry(file_name: &str, path: &str) -> DirEntry {
    DirEntry { file_name: file_name.to_string(), path: path.to_string() }
}

fn listing(entries: Vec<DirEntry>) -> DirectoryListing {
    DirectoryListing { entries: Some(entries) }
}

fn failed_listing() -> DirectoryListing {
    DirectoryListing { entries: None }
}

fn sample_listings() -> Vec<DirectoryListing> {
    vec![
        listing(vec![
            entry("Arial.ttf", "/fonts/a/Arial.ttf"),
            entry("notes.txt", "/fonts/a/notes.txt"),
            entry("Helvetica-Bold.otf", "/fonts/a/Helvetica-Bold.otf"),
        ]),
        listing(vec![
            entry("NotoSansCJK-Regular.ttc", "/fonts/b/NotoSansCJK-Regular.ttc"),
            entry("weirdfile", "/fonts/b/weirdfile"),
            entry("Menlo.woff2", "/fonts/b/Menlo.woff2"),
        ]),
    ]
}

fn names(fonts: &[FontInfo]) -> Vec<String> {
    fonts.iter().map(|f| f.name.clone()).collect()
}

#[test]
fn populate_keeps_qualifying_entries_in_order() {
    let mut cache = FontCache::new();
    let listings = sample_listings();
    let fonts = cache.get_all_fonts(&listings).unwrap();
    assert_eq!(
        names(&fonts),
        vec!["Arial", "Helvetica-Bold", "NotoSansCJK-Regular", "Menlo"]
    );
    assert_eq!(fonts[0].path, "/fonts/a/Arial.ttf");
    assert_eq!(fonts[3].family, "Menlo");
    assert_eq!(fonts[3].style, "Regular");
}

#[test]
fn population_is_idempotent() {
    let mut cache = FontCache::new();
    let listings = sample_listings();
    cache.populate(&listings);
    assert!(cache.is_loaded());
    let first = names(&cache.get_all_fonts(&listings).unwrap());

    // A second population attempt, even with different listings, changes
    // nothing: no duplication, no re-scan.
    let other = vec![listing(vec![entry("Extra.ttf", "/x/Extra.ttf")])];
    cache.populate(&other);
    let second = names(&cache.get_all_fonts(&other).unwrap());
    assert_eq!(first, second);

    let empty: Vec<DirectoryListing> = Vec::new();
    let third = names(&cache.get_all_fonts(&empty).unwrap());
    assert_eq!(first, third);
}

#[test]
fn count_matches_all_fonts() {
    let mut cache = FontCache::new();
    let listings = sample_listings();
    let count = cache.get_font_count(&listings).unwrap();
    let all = cache.get_all_fonts(&listings).unwrap();
    assert_eq!(count, all.len());
    assert_eq!(count, 4);
}

#[test]
fn pagination_concatenates_to_all_fonts() {
    let mut cache = FontCache::new();
    let listings = vec![listing(vec![
        entry("F1.ttf", "/f/F1.ttf"),
        entry("F2.ttf", "/f/F2.ttf"),
        entry("F3.ttf", "/f/F3.ttf"),
        entry("F4.ttf", "/f/F4.ttf"),
        entry("F5.ttf", "/f/F5.ttf"),
    ])];
    let all = names(&cache.get_all_fonts(&listings).unwrap());

    let mut gathered: Vec<String> = Vec::new();
    let mut page = 0;
    loop {
        let chunk = cache.get_paginated_fonts(page, 2, &listings).unwrap();
        if chunk.is_empty() {
            break;
        }
        gathered.extend(names(&chunk));
        page += 1;
    }
    assert_eq!(page, 3);
    assert_eq!(gathered, all);
}

#[test]
fn page_windows_are_contiguous_slices() {
    let mut cache = FontCache::new();
    let listings = vec![listing(vec![
        entry("F1.ttf", "/f/F1.ttf"),
        entry("F2.ttf", "/f/F2.ttf"),
        entry("F3.ttf", "/f/F3.ttf"),
    ])];
    let first_page = names(&cache.get_paginated_fonts(0, 2, &listings).unwrap());
    let second_page = names(&cache.get_paginated_fonts(1, 2, &listings).unwrap());
    assert_eq!(first_page, vec!["F1", "F2"]);
    assert_eq!(second_page, vec!["F3"]);
}

#[test]
fn out_of_range_page_is_empty() {
    let mut cache = FontCache::new();
    let listings = sample_listings();
    let count = cache.get_font_count(&listings).unwrap();
    assert_eq!(count, 4);
    assert!(cache.get_paginated_fonts(2, 2, &listings).unwrap().is_empty());
    assert!(cache.get_paginated_fonts(1, 4, &listings).unwrap().is_empty());
    assert!(cache.get_paginated_fonts(100, 100, &listings).unwrap().is_empty());
    assert!(cache.get_paginated_fonts(usize::MAX, 2, &listings).unwrap().is_empty());
    assert!(cache.get_paginated_fonts(usize::MAX, usize::MAX, &listings).unwrap().is_empty());
}

#[test]
fn zero_page_size_yields_empty_window_for_every_page() {
    let mut cache = FontCache::new();
    let listings = sample_listings();
    assert!(cache.get_paginated_fonts(0, 0, &listings).unwrap().is_empty());
    assert!(cache.get_paginated_fonts(7, 0, &listings).unwrap().is_empty());
}

#[test]
fn oversized_page_size_clamps_at_the_end() {
    let mut cache = FontCache::new();
    let listings = sample_listings();
    let page = cache.get_paginated_fonts(0, 1000, &listings).unwrap();
    assert_eq!(page.len(), 4);
}

#[test]
fn failed_directory_is_skipped_silently() {
    let mut cache = FontCache::new();
    let listings = vec![
        listing(vec![entry("Arial.ttf", "/fonts/a/Arial.ttf")]),
        failed_listing(),
        listing(vec![entry("Menlo.woff", "/fonts/c/Menlo.woff")]),
    ];
    cache.populate(&listings);
    assert!(cache.is_loaded());
    let fonts = names(&cache.get_all_fonts(&listings).unwrap());
    assert_eq!(fonts, vec!["Arial", "Menlo"]);
}

#[test]
fn all_directories_failing_still_latches_loaded() {
    let mut cache = FontCache::new();
    let listings = vec![failed_listing(), failed_listing()];
    cache.populate(&listings);
    assert!(cache.is_loaded());
    assert_eq!(cache.get_font_count(&listings).unwrap(), 0);
}

#[test]
fn no_directories_yield_an_empty_cache() {
    let mut cache = FontCache::new();
    let listings: Vec<DirectoryListing> = Vec::new();
    assert!(cache.get_all_fonts(&listings).unwrap().is_empty());
    assert_eq!(cache.get_font_count(&listings).unwrap(), 0);
    assert!(cache.is_loaded());
}
