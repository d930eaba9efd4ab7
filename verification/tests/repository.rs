use penvman::artifact::DirEntry;
use penvman::command::show::repo_version;
use penvman::config::Config;
use penvman::fault::Fault;
use penvman::layout::PathLayout;
use penvman::publish::Link;
use penvman::repo::{
    has_remote_branch, needs_build, resolve_branch, version_from, Acquire, Repository, SyncPlan,
    VERSION_OFFSET,
};

fn names(list: &[&str]) -> Vec<String> {
    list.iter().map(|s| s.to_string()).collect()
}

#[test]
fn new_repository_follows_its_channel() {
    let repo = Repository::new("develop", "compiler");
    assert_eq!(repo.name(), "compiler");
    assert_eq!(repo.channel(), "develop");
    assert_eq!(repo.branch(), "develop");
}

#[test]
fn working_copy_is_cloned_only_where_absent() {
    let layout = PathLayout::new("/r");
    let repo = Repository::new("develop", "linker");
    assert_eq!(
        repo.acquire(&layout, false),
        Acquire::Clone {
            url: "https://github.com/shinrabansyo/linker".to_string(),
            dir: "/r/repos/linker".to_string(),
        }
    );
    assert_eq!(repo.acquire(&layout, true), Acquire::Open { dir: "/r/repos/linker".to_string() });
}

#[test]
fn remote_branch_is_found_by_its_exact_name() {
    let remotes = names(&["origin/HEAD", "origin/master", "origin/develop"]);
    assert!(has_remote_branch(&remotes, "origin/develop"));
    assert!(has_remote_branch(&remotes, "origin/master"));
    assert!(!has_remote_branch(&remotes, "origin/dev"));
    assert!(!has_remote_branch(&remotes, "develop"));
    assert!(!has_remote_branch(&remotes, "origin/develop2"));
    assert!(!has_remote_branch(&Vec::new(), "origin/develop"));
}

#[test]
fn channel_branch_is_followed_where_it_exists() {
    let remotes = names(&["origin/master", "origin/develop"]);
    assert_eq!(resolve_branch("develop", &remotes), "develop");
    assert_eq!(resolve_branch("master", &remotes), "master");
}

#[test]
fn fallback_is_master_whatever_the_channel() {
    let remotes = names(&["origin/master"]);
    assert_eq!(resolve_branch("develop", &remotes), "master");
    assert_eq!(resolve_branch("nightly", &remotes), "master");
    assert_eq!(resolve_branch("", &remotes), "master");
    assert_eq!(resolve_branch("feature/x", &remotes), "master");
    assert_eq!(resolve_branch("develop", &Vec::new()), "master");
}

#[test]
fn fallback_is_repeatable() {
    let remotes = names(&["origin/master", "origin/stable"]);
    let first = resolve_branch("develop", &remotes);
    let second = resolve_branch("develop", &remotes);
    assert_eq!(first, second);
    let mut repo = Repository::new("develop", "emulator");
    repo.sync_repo(&remotes).unwrap();
    assert_eq!(repo.branch(), "master");
    repo.sync_repo(&remotes).unwrap();
    assert_eq!(repo.branch(), "master");
    assert_eq!(repo.channel(), "develop");
}

#[test]
fn sync_plans_merge_and_checkout_of_the_channel() {
    let mut repo = Repository::new("develop", "compiler");
    let plan = repo.sync_repo(&names(&["origin/master", "origin/develop"]));
    assert_eq!(
        plan,
        Ok(SyncPlan { remote_ref: "origin/develop".to_string(), branch: "develop".to_string() })
    );
    assert_eq!(repo.branch(), "develop");
}

#[test]
fn sync_falls_back_to_master() {
    let mut repo = Repository::new("develop", "compiler");
    let plan = repo.sync_repo(&names(&["origin/master"]));
    assert_eq!(
        plan,
        Ok(SyncPlan { remote_ref: "origin/master".to_string(), branch: "master".to_string() })
    );
    assert_eq!(repo.branch(), "master");
    assert_eq!(repo.channel(), "develop");
    assert_eq!(repo.name(), "compiler");
}

#[test]
fn sync_fails_where_master_is_absent_too() {
    let mut repo = Repository::new("develop", "compiler");
    let plan = repo.sync_repo(&names(&["origin/stable"]));
    assert_eq!(plan, Err(Fault::VersionControl));
    assert_eq!(repo.branch(), "master");
    let mut repo = Repository::new("develop", "compiler");
    assert_eq!(repo.sync_repo(&Vec::new()), Err(Fault::VersionControl));
}

#[test]
fn staleness_compares_hashes() {
    let repo = Repository::new("develop", "compiler");
    assert!(repo.check_updated("", "abc123"));
    assert!(repo.check_updated("abc122", "abc123"));
    assert!(!repo.check_updated("abc123", "abc123"));
    assert!(!repo.check_updated("", ""));
}

#[test]
fn build_is_due_when_stale_or_forced() {
    assert!(needs_build("", "h1", false));
    assert!(needs_build("h0", "h1", false));
    assert!(!needs_build("h1", "h1", false));
    assert!(needs_build("h1", "h1", true));
    assert!(needs_build("h0", "h1", true));
}

#[test]
fn built_commit_is_no_longer_stale() {
    let layout = PathLayout::new("/r");
    let repo = Repository::new("develop", "compiler");
    assert!(needs_build("", "h1", false));
    let plan = repo.build(&layout, &Vec::new(), "h1");
    assert!(!needs_build(&plan.marker, "h1", false));
    assert!(!repo.check_updated(&plan.marker, "h1"));
}

#[test]
fn build_plan_links_binaries_and_records_the_head() {
    let layout = PathLayout::new("/r");
    let mut repo = Repository::new("develop", "compiler");
    repo.sync_repo(&names(&["origin/master"])).unwrap();
    let entries = vec![
        DirEntry { name: "sb_compiler_cli".to_string(), is_file: true, executable: true },
        DirEntry { name: "libsb_compiler.so".to_string(), is_file: true, executable: true },
        DirEntry { name: "deps".to_string(), is_file: false, executable: true },
    ];
    let plan = repo.build(&layout, &entries, "0123abcd");
    assert_eq!(
        plan.links,
        vec![Link {
            target: "/r/repos/compiler/target/release/sb_compiler_cli".to_string(),
            dir: "/r/toolchains/develop".to_string(),
            name: "sb_compiler_cli".to_string(),
        }]
    );
    assert_eq!(plan.marker_path, "/r/repos/compiler.head");
    assert_eq!(plan.marker, "0123abcd");
}

#[test]
fn build_plan_without_binaries_still_records_the_head() {
    let layout = PathLayout::new("/r");
    let repo = Repository::new("develop", "builder");
    let plan = repo.build(&layout, &Vec::new(), "ff");
    assert!(plan.links.is_empty());
    assert_eq!(plan.marker_path, "/r/repos/builder.head");
    assert_eq!(plan.marker, "ff");
}

#[test]
fn version_is_the_commit_time_nine_hours_east() {
    let repo = Repository::new("develop", "compiler");
    assert_eq!(VERSION_OFFSET, 9 * 3600);
    assert_eq!(repo.version(0), Ok("1970-01-01 09:00:00".to_string()));
    assert_eq!(repo.version(1431648000), Ok("2015-05-15 09:00:00".to_string()));
    assert_eq!(repo.version(1700000000), Ok("2023-11-15 07:13:20".to_string()));
    assert_eq!(repo.version(-1), Ok("1970-01-01 08:59:59".to_string()));
    assert_eq!(repo.version(951782400 - 9 * 3600), Ok("2000-02-29 00:00:00".to_string()));
    assert_eq!(repo.version(951782400 + 15 * 3600), Ok("2000-03-01 00:00:00".to_string()));
}

#[test]
fn version_of_an_unrepresentable_time_is_a_failure() {
    let repo = Repository::new("develop", "compiler");
    assert_eq!(repo.version(i64::MAX), Err(Fault::VersionControl));
    assert_eq!(repo.version(i64::MIN), Err(Fault::VersionControl));
}

#[test]
fn version_from_maps_the_formatter_result() {
    assert_eq!(version_from(Some("2024-01-01 00:00:00".to_string())), Ok("2024-01-01 00:00:00".to_string()));
    assert_eq!(version_from(Some(String::new())), Ok(String::new()));
    assert_eq!(version_from(None), Err(Fault::VersionControl));
}

#[test]
fn repo_version_depends_on_the_commit_time_only() {
    let config = Config::new("develop");
    assert_eq!(repo_version(&config, "compiler", 0), Ok("1970-01-01 09:00:00".to_string()));
    assert_eq!(repo_version(&config, "linker", 0), Ok("1970-01-01 09:00:00".to_string()));
    assert_eq!(
        repo_version(&Config::new("master"), "linker", 86400),
        Ok("1970-01-02 09:00:00".to_string())
    );
    assert_eq!(repo_version(&config, "compiler", i64::MAX), Err(Fault::VersionControl));
}
