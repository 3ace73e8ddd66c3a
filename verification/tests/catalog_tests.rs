use font_cache::catalog::directories_for;
use font_cache::catalog::TargetOs;

#[test]
fn windows_catalog_is_the_fixed_two_entry_list() {
    let dirs = directories_for(TargetOs::Windows, "");
    assert_eq!(
        dirs,
        vec![
            "C:\\Windows\\Fonts".to_string(),
            "C:\\Users\\Public\\AppData\\Local\\Microsoft\\Windows\\Fonts".to_string(),
        ]
    );
}

#[test]
fn macos_catalog_ends_with_the_home_fonts_directory() {
    let dirs = directories_for(TargetOs::MacOs, "/Users/someone");
    assert_eq!(
        dirs,
        vec![
            "/System/Library/Fonts".to_string(),
            "/Library/Fonts".to_string(),
            "/Users/Shared/Library/Fonts".to_string(),
            "/Users/someone/Library/Fonts".to_string(),
        ]
    );
}

#[test]
fn unresolved_home_still_yields_a_path() {
    let dirs = directories_for(TargetOs::MacOs, "");
    assert_eq!(dirs[3], "/Library/Fonts");
}

#[test]
fn other_systems_map_to_no_directories() {
    let dirs = directories_for(TargetOs::Other, "/home/someone");
    assert!(dirs.is_empty());
}
