//! The persisted configuration: the active channel.

use vstd::prelude::*;

verus! {

/// The configuration. Its one value is the name of the active channel: the
/// branch that the repositories follow and the link directory that the
/// stable names lead to.
#[derive(Debug, PartialEq, Eq)]
pub struct Config {
    pub channel: String,
}

/// The mathematical value of a [`Config`].
pub struct ConfigView {
    pub channel: Seq<char>,
}

impl View for Config {
    type V = ConfigView;

    open spec fn view(&self) -> ConfigView {
        ConfigView { channel: self.channel@ }
    }
}

impl Config {
    /// The configuration with `channel` as the active one.
    pub fn new(channel: &str) -> (config: Config)
        ensures
            config@.channel == channel@,
    {
        Config { channel: channel.to_owned() }
    }

    /// The configuration that a fresh install starts with: the channel
    /// `develop`.
    pub fn initial() -> (config: Config)
        ensures
            config@.channel == "develop"@,
    {
        Config { channel: "develop".to_owned() }
    }
}

} // verus!
