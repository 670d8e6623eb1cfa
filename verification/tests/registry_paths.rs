use rcloc::pathfilter::should_skip;
use rcloc::registry::Registry;

#[test]
fn resolving_twice_gives_the_same_profile() {
    let reg = Registry::new();
    let ext = b"rs".to_vec();
    let first = reg.resolve(&ext).expect("rs is known");
    let second = reg.resolve(&ext).expect("rs is known");
    assert_eq!(first, second);
    let p1 = reg.profile(first);
    let p2 = reg.profile(second);
    assert_eq!(p1.name, p2.name);
    assert_eq!(p1.line_comments, p2.line_comments);
    assert_eq!(p1.block_starts, p2.block_starts);
    assert_eq!(p1.block_ends, p2.block_ends);
}

#[test]
fn resolution_is_case_insensitive() {
    let reg = Registry::new();
    let lower = reg.resolve(&b"py".to_vec()).expect("py is known");
    let upper = reg.resolve(&b"PY".to_vec()).expect("PY is known");
    assert_eq!(lower, upper);
    assert_eq!(reg.profile(lower).name, "Python");
    let rs = reg.resolve(&b"RS".to_vec()).expect("RS is known");
    assert_eq!(reg.profile(rs).name, "Rust");
}

#[test]
fn known_extensions_map_to_their_language() {
    let reg = Registry::new();
    for (ext, name) in [
        (&b"rs"[..], "Rust"),
        (&b"cpp"[..], "C/C++"),
        (&b"ts"[..], "TypeScript"),
        (&b"sh"[..], "Shell"),
        (&b"sql"[..], "SQL"),
        (&b"md"[..], "Markdown"),
    ] {
        let i = reg.resolve(&ext.to_vec()).expect("extension is known");
        assert_eq!(reg.profile(i).name, name);
    }
}

#[test]
fn unknown_extension_resolves_to_none() {
    let reg = Registry::new();
    assert_eq!(reg.resolve(&b"exe".to_vec()), None);
    assert_eq!(reg.resolve(&b"".to_vec()), None);
}

#[test]
fn build_directories_are_skipped() {
    let components = vec![b"src".to_vec(), b"target".to_vec(), b"debug".to_vec()];
    assert!(should_skip(&components, &b"main.rs".to_vec()));
    let upper = vec![b"NODE_MODULES".to_vec()];
    assert!(should_skip(&upper, &b"index.js".to_vec()));
}

#[test]
fn hidden_files_are_skipped() {
    let components = vec![b"src".to_vec(), b".secrets.rs".to_vec()];
    assert!(should_skip(&components, &b".secrets.rs".to_vec()));
    // A bare dot is not a hidden file.
    assert!(!should_skip(&vec![b".".to_vec()], &b".".to_vec()));
}

#[test]
fn ordinary_paths_are_kept() {
    let components = vec![b"src".to_vec(), b"lib.rs".to_vec()];
    assert!(!should_skip(&components, &b"lib.rs".to_vec()));
}
