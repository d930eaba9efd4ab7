use penvman::fault::Fault;
use penvman::pipeline::{Action, Outcome, Stage};
use penvman::repo::{Acquire, SyncPlan};
use penvman::report::{installing_line, pad_right, phase, status_cell, summary_line, verdict};

#[test]
fn pad_right_fills_up_with_spaces() {
    assert_eq!(pad_right("abc", 5), "abc  ");
    assert_eq!(pad_right("", 3), "   ");
    assert_eq!(pad_right("abc", 3), "abc");
    assert_eq!(pad_right("abcdef", 3), "abcdef");
    assert_eq!(pad_right("abc", 0), "abc");
    assert_eq!(pad_right("森羅", 4), "森羅  ");
}

#[test]
fn pad_right_agrees_with_the_standard_formatter() {
    for name in ["", "builder", "penv-manager", "a-very-long-repository-name"] {
        assert_eq!(pad_right(name, 12), format!("{:12}", name));
        assert_eq!(pad_right(name, 15), format!("{:15}", name));
    }
}

#[test]
fn installing_line_has_a_fixed_column() {
    assert_eq!(installing_line("compiler"), "Installing compiler       ... ");
    assert_eq!(installing_line("penv-manager"), format!("Installing {:15}... ", "penv-manager"));
}

#[test]
fn status_cell_is_twenty_wide() {
    assert_eq!(status_cell("building"), "building            ");
    assert_eq!(status_cell("checking updates"), format!("{:20}", "checking updates"));
}

#[test]
fn summary_line_aligns_the_versions() {
    assert_eq!(
        summary_line("compiler", "2024-01-02 03:04:05"),
        "    * compiler     : 2024-01-02 03:04:05"
    );
    assert_eq!(
        summary_line("penv-manager", "v"),
        format!("    * {:12} : {}", "penv-manager", "v")
    );
}

#[test]
fn phases_are_named_where_they_begin() {
    assert_eq!(phase(&Action::Locate { dir: "/r/repos/x".to_string() }), Some("checking updates".to_string()));
    assert_eq!(
        phase(&Action::Build { dir: "/d".to_string(), release_dir: "/d/target/release".to_string() }),
        Some("building".to_string())
    );
    assert_eq!(phase(&Action::Fetch { acquire: Acquire::Open { dir: "/d".to_string() } }), None);
    assert_eq!(
        phase(&Action::Checkout {
            dir: "/d".to_string(),
            plan: SyncPlan { remote_ref: "origin/master".to_string(), branch: "master".to_string() },
            marker_path: "/d.head".to_string(),
        }),
        None
    );
    assert_eq!(phase(&Action::Publish { links: Vec::new() }), None);
    assert_eq!(phase(&Action::WriteMarker { path: "/p".to_string(), text: "h".to_string() }), None);
    assert_eq!(phase(&Action::Stop), None);
}

#[test]
fn verdicts_sum_up_finished_updates() {
    assert_eq!(verdict(Stage::Done(Outcome::Skipped), "ignored"), Some("Skipped".to_string()));
    assert_eq!(
        verdict(Stage::Done(Outcome::Updated), "2024-01-02 03:04:05"),
        Some("Ok (version: 2024-01-02 03:04:05)".to_string())
    );
    assert_eq!(verdict(Stage::Failed(Fault::Build), "v"), None);
    assert_eq!(verdict(Stage::Building, "v"), None);
    assert_eq!(verdict(Stage::Idle, "v"), None);
}
