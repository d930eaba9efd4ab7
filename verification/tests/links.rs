use std::collections::HashMap;

use penvman::layout::PathLayout;
use penvman::publish::{
    activation_links, channel_link, channel_links, replace_ops, set_symlink, Link, LinkOp,
};

fn link(target: &str, dir: &str, name: &str) -> Link {
    Link { target: target.to_string(), dir: dir.to_string(), name: name.to_string() }
}

fn apply(table: &mut HashMap<String, String>, op: &LinkOp) {
    match op {
        LinkOp::Symlink { target, path } => {
            table.insert(path.clone(), target.clone());
        }
        LinkOp::Rename { from, to } => {
            if let Some(target) = table.remove(from) {
                table.insert(to.clone(), target);
            }
        }
    }
}

fn publish(table: &mut HashMap<String, String>, links: &Vec<Link>) {
    for link in links {
        for op in replace_ops(link) {
            apply(table, &op);
        }
    }
}

#[test]
fn channel_link_is_named_after_the_binary() {
    let layout = PathLayout::new("/r");
    assert_eq!(
        channel_link(&layout, "develop", "/r/repos/linker/target/release/sb_linker_cli"),
        link("/r/repos/linker/target/release/sb_linker_cli", "/r/toolchains/develop", "sb_linker_cli")
    );
    assert_eq!(channel_link(&layout, "master", "sb_x"), link("sb_x", "/r/toolchains/master", "sb_x"));
}

#[test]
fn channel_links_are_one_per_binary_in_order() {
    let layout = PathLayout::new("/r");
    let artifacts = vec!["/b/sb_two".to_string(), "/b/sb_one".to_string()];
    assert_eq!(
        channel_links(&layout, "develop", &artifacts),
        vec![
            link("/b/sb_two", "/r/toolchains/develop", "sb_two"),
            link("/b/sb_one", "/r/toolchains/develop", "sb_one"),
        ]
    );
    assert_eq!(channel_links(&layout, "develop", &Vec::new()), Vec::<Link>::new());
}

#[test]
fn set_symlink_points_a_stable_name_into_the_channel() {
    let layout = PathLayout::new("/r");
    assert_eq!(
        set_symlink(&layout, "develop", "sb_compiler_cli", "sb-compiler"),
        link("/r/toolchains/develop/sb_compiler_cli", "/r/bin", "sb-compiler")
    );
}

#[test]
fn activation_links_cover_every_stable_command() {
    let layout = PathLayout::new("/r");
    let links = activation_links(&layout, "develop");
    let table = [
        ("sb_penvman_cli", "sb-penvman"),
        ("sb_compiler_cli", "sb-compiler"),
        ("sb_linker_cli", "sb-linker"),
        ("sb_assembler_cli", "sb-assembler"),
        ("sb_emulator_cli", "sb-emulator-cli"),
        ("sb_emulator_tui", "sb-emulator-tui"),
        ("sb_builder_cli", "sb-builder"),
        ("sb_objdump_cli", "sb-objdump"),
    ];
    assert_eq!(links.len(), 8);
    for (i, (artifact, command)) in table.iter().enumerate() {
        assert_eq!(
            links[i],
            link(&format!("/r/toolchains/develop/{}", artifact), "/r/bin", command)
        );
    }
}

#[test]
fn replace_stages_then_renames() {
    let ops = replace_ops(&link("/t/sb_a", "/r/bin", "sb-a"));
    assert_eq!(
        ops,
        vec![
            LinkOp::Symlink { target: "/t/sb_a".to_string(), path: "/r/bin/.sb-a".to_string() },
            LinkOp::Rename { from: "/r/bin/.sb-a".to_string(), to: "/r/bin/sb-a".to_string() },
        ]
    );
}

#[test]
fn republishing_never_leaves_the_name_unresolved() {
    let mut table = HashMap::new();
    table.insert("/r/bin/sb-a".to_string(), "/old/sb_a".to_string());
    table.insert("/r/bin/sb-b".to_string(), "/old/sb_b".to_string());
    let ops = replace_ops(&link("/new/sb_a", "/r/bin", "sb-a"));
    apply(&mut table, &ops[0]);
    assert_eq!(table.get("/r/bin/sb-a"), Some(&"/old/sb_a".to_string()));
    apply(&mut table, &ops[1]);
    assert_eq!(table.get("/r/bin/sb-a"), Some(&"/new/sb_a".to_string()));
    assert_eq!(table.get("/r/bin/sb-b"), Some(&"/old/sb_b".to_string()));
    assert_eq!(table.len(), 2);
}

#[test]
fn publishing_a_fresh_name_creates_it() {
    let mut table = HashMap::new();
    publish(&mut table, &vec![link("/new/sb_a", "/r/toolchains/develop", "sb_a")]);
    assert_eq!(table.get("/r/toolchains/develop/sb_a"), Some(&"/new/sb_a".to_string()));
    assert_eq!(table.len(), 1);
}

#[test]
fn activation_repoints_stable_links_and_leaves_channels_alone() {
    let layout = PathLayout::new("/r");
    let mut table = HashMap::new();
    publish(&mut table, &channel_links(&layout, "a", &vec!["/r/repos/x/target/release/sb_compiler_cli".to_string()]));
    publish(&mut table, &channel_links(&layout, "b", &vec!["/r/repos/x/target/release/sb_compiler_cli".to_string()]));
    publish(&mut table, &activation_links(&layout, "a"));
    assert_eq!(table.get("/r/bin/sb-compiler"), Some(&"/r/toolchains/a/sb_compiler_cli".to_string()));
    let before: HashMap<String, String> = table
        .iter()
        .filter(|(path, _)| path.starts_with("/r/toolchains/"))
        .map(|(path, target)| (path.clone(), target.clone()))
        .collect();
    publish(&mut table, &activation_links(&layout, "b"));
    for command in [
        "sb-penvman",
        "sb-compiler",
        "sb-linker",
        "sb-assembler",
        "sb-emulator-cli",
        "sb-emulator-tui",
        "sb-builder",
        "sb-objdump",
    ] {
        let target = table.get(&format!("/r/bin/{}", command)).unwrap();
        assert!(target.starts_with("/r/toolchains/b/"));
    }
    let after: HashMap<String, String> = table
        .iter()
        .filter(|(path, _)| path.starts_with("/r/toolchains/"))
        .map(|(path, target)| (path.clone(), target.clone()))
        .collect();
    assert_eq!(before, after);
    assert_eq!(table.len(), 2 + 8);
}
