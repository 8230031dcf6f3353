use twofauth_client::icons::{
    icon_from_cache, icon_from_download, icon_to_load, safe_icon_filename, CachedIcon, DownloadedIcon,
};

#[test]
fn cache_file_names_are_final_components() {
    assert_eq!(safe_icon_filename("abc.png"), "abc.png");
    assert_eq!(safe_icon_filename("dir/abc.png"), "abc.png");
    assert_eq!(safe_icon_filename("../../etc/passwd"), "passwd");
    assert_eq!(safe_icon_filename("/abs/name.svg/"), "name.svg");
    assert_eq!(safe_icon_filename("a/./"), "a");
    assert_eq!(safe_icon_filename("..."), "...");
    assert_eq!(safe_icon_filename(".hidden"), ".hidden");
}

#[test]
fn names_without_a_file_fall_back() {
    assert_eq!(safe_icon_filename(""), "icon");
    assert_eq!(safe_icon_filename("/"), "icon");
    assert_eq!(safe_icon_filename("."), "icon");
    assert_eq!(safe_icon_filename("./."), "icon");
    assert_eq!(safe_icon_filename(".."), "icon");
    assert_eq!(safe_icon_filename("a/.."), "icon");
}

#[test]
fn matches_std_path_file_name() {
    for name in ["a", "a/b", "a//b", "./a", "a/.", "/", "", "..", "x/../", "x/./.", "//y//", "a b/c d"] {
        let expected = std::path::Path::new(name)
            .file_name()
            .and_then(|n| n.to_str())
            .unwrap_or("icon")
            .to_string();
        assert_eq!(safe_icon_filename(name), expected, "for {:?}", name);
    }
}

#[test]
fn blank_icon_names_are_not_loaded() {
    assert_eq!(icon_to_load(&None), None);
    assert_eq!(icon_to_load(&Some("   ".to_string())), None);
    assert_eq!(icon_to_load(&Some(" x.png ".to_string())), Some("x.png".to_string()));
}

#[test]
fn cached_icons_are_used_when_not_empty() {
    assert!(matches!(icon_from_cache(Some(vec![1, 2, 3])), CachedIcon::Show(ref b) if b == &vec![1, 2, 3]));
    assert!(matches!(icon_from_cache(Some(Vec::new())), CachedIcon::Download));
    assert!(matches!(icon_from_cache(None), CachedIcon::Download));
}

#[test]
fn downloaded_icons_are_cached_when_not_empty() {
    assert!(matches!(icon_from_download(Some(vec![7])), DownloadedIcon::CacheAndShow(ref b) if b == &vec![7]));
    assert!(matches!(icon_from_download(Some(Vec::new())), DownloadedIcon::Fallback));
    assert!(matches!(icon_from_download(None), DownloadedIcon::Fallback));
}
