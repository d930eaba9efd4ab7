use penvman::cli::CliOptions;
use penvman::command::init::Init;
use penvman::command::show::Show;
use penvman::command::update::Update;
use penvman::command::{Command, Step};
use penvman::config::Config;

#[test]
fn update_is_made_from_its_options() {
    assert!(Update::from(CliOptions::Update { force: true }).force);
    assert!(!Update::from(CliOptions::Update { force: false }).force);
}

#[test]
fn default_is_made_from_its_options() {
    let default =
        penvman::command::default::Default::from(CliOptions::Default { channel: "nightly".to_string() });
    assert_eq!(default.channel, "nightly");
}

#[test]
fn init_and_show_are_made_from_their_options() {
    let _init: Init = Init::from(CliOptions::Init);
    let _show: Show = Show::from(CliOptions::Show);
}

#[test]
fn update_loads_prepares_and_updates() {
    assert_eq!(
        Update { force: false }.run(),
        vec![Step::LoadConfig, Step::PrepareChannel, Step::UpdateAll { force: false }]
    );
    assert_eq!(
        Update { force: true }.run(),
        vec![Step::LoadConfig, Step::PrepareChannel, Step::UpdateAll { force: true }]
    );
}

#[test]
fn default_persists_updates_then_activates() {
    let default = penvman::command::default::Default { channel: "nightly".to_string() };
    assert_eq!(
        default.run(),
        vec![
            Step::LoadConfig,
            Step::StoreConfig(Config::new("nightly")),
            Step::PrepareChannel,
            Step::UpdateAll { force: false },
            Step::Activate,
        ]
    );
}

#[test]
fn show_loads_and_summarizes() {
    assert_eq!(Show.run(), vec![Step::LoadConfig, Step::Summarize]);
}

#[test]
fn init_lays_out_updates_and_sets_develop() {
    assert_eq!(
        Init.run(),
        vec![
            Step::CreateLayout,
            Step::StoreConfig(Config::initial()),
            Step::WriteEnv,
            Step::LoadConfig,
            Step::PrepareChannel,
            Step::UpdateAll { force: false },
            Step::LoadConfig,
            Step::StoreConfig(Config::new("develop")),
            Step::PrepareChannel,
            Step::UpdateAll { force: false },
            Step::Activate,
            Step::Announce,
        ]
    );
}

#[test]
fn initial_configuration_is_develop() {
    assert_eq!(Config::initial().channel, "develop");
    assert_eq!(Config::initial(), Config::new("develop"));
    assert_eq!(Config::new("").channel, "");
}

#[test]
fn activation_comes_only_with_setting_the_default() {
    assert!(!Update { force: true }.run().contains(&Step::Activate));
    assert!(!Show.run().contains(&Step::Activate));
    let default = penvman::command::default::Default { channel: "x".to_string() };
    assert!(default.run().contains(&Step::Activate));
}
