use penvman::artifact::{is_publishable, select_artifacts, DirEntry};

fn entry(name: &str, is_file: bool, executable: bool) -> DirEntry {
    DirEntry { name: name.to_string(), is_file, executable }
}

#[test]
fn artifact_filter_picks_the_prefixed_executables() {
    let entries = vec![
        entry("sb_foo", true, true),
        entry("sb_foo.so", true, true),
        entry("readme.txt", true, true),
        entry("sb_bar", true, true),
    ];
    let paths = select_artifacts("/r/repos/x/target/release", "sb_", &entries);
    assert_eq!(
        paths,
        vec![
            "/r/repos/x/target/release/sb_foo".to_string(),
            "/r/repos/x/target/release/sb_bar".to_string(),
        ]
    );
}

#[test]
fn artifact_filter_wants_a_regular_executable_file() {
    let entries = vec![
        entry("sb_dir", false, true),
        entry("sb_data", true, false),
        entry("sb_neither", false, false),
        entry("sb_ok", true, true),
    ];
    assert_eq!(select_artifacts("/d", "sb_", &entries), vec!["/d/sb_ok".to_string()]);
}

#[test]
fn artifact_filter_keeps_the_order_of_the_listing() {
    let entries =
        vec![entry("sb_z", true, true), entry("sb_a", true, true), entry("sb_m", true, true)];
    assert_eq!(
        select_artifacts("/d", "sb_", &entries),
        vec!["/d/sb_z".to_string(), "/d/sb_a".to_string(), "/d/sb_m".to_string()]
    );
}

#[test]
fn artifact_filter_of_nothing_is_nothing() {
    assert_eq!(select_artifacts("/d", "sb_", &Vec::new()), Vec::<String>::new());
    let entries = vec![entry("readme.txt", true, true), entry("build.log", true, false)];
    assert_eq!(select_artifacts("/d", "sb_", &entries), Vec::<String>::new());
}

#[test]
fn artifact_filter_reads_the_prefix_at_the_front_only() {
    assert!(is_publishable("sb_", &entry("sb_cli", true, true)));
    assert!(is_publishable("sb_", &entry("sb_", true, true)));
    assert!(!is_publishable("sb_", &entry("libsb_cli", true, true)));
    assert!(!is_publishable("sb_", &entry("sb", true, true)));
    assert!(!is_publishable("sb_", &entry("", true, true)));
}

#[test]
fn artifact_filter_drops_shared_libraries_wherever_the_mark_stands() {
    assert!(!is_publishable("sb_", &entry("sb_core.so", true, true)));
    assert!(!is_publishable("sb_", &entry("sb_core.so.1", true, true)));
    assert!(!is_publishable("sb_", &entry("sb_.so", true, true)));
    assert!(is_publishable("sb_", &entry("sb_so", true, true)));
    assert!(is_publishable("sb_", &entry("sb_core.s", true, true)));
}

#[test]
fn artifact_filter_follows_the_given_prefix() {
    assert!(is_publishable("tool-", &entry("tool-x", true, true)));
    assert!(!is_publishable("tool-", &entry("sb_x", true, true)));
    assert!(is_publishable("", &entry("anything", true, true)));
}
