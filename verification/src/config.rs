//! What the user configures: the teams to follow, how many fixtures to
//! show, and how to show them.

use vstd::prelude::*;
use vstd::string::*;

verus! {

/// How often the fixtures are fetched again.
#[derive(Clone, Copy, Debug, PartialEq, Eq, Structural)]
pub enum RefreshInterval {
    Minutes(u64),
    BootOnly,
}

/// Light or dark rendering.
#[derive(Clone, Copy, Debug, PartialEq, Eq, Structural)]
pub enum Theme {
    Light,
    Dark,
}

/// How a fixture is rendered.
#[derive(Clone, Debug, PartialEq, Eq)]
pub struct Formatting {
    pub datetime_format: String,
    pub show_venue: bool,
    pub show_competition: bool,
}

/// The user's configuration.
#[derive(Clone, Debug, PartialEq, Eq)]
pub struct Config {
    pub version: u8,
    pub teams: Vec<String>,
    pub match_count: usize,
    pub refresh: RefreshInterval,
    pub theme: Theme,
    pub formatting: Formatting,
}

/// The formatting used where none is configured: weekday, day and month,
/// then the time; neither venue nor competition.
pub open spec fn is_default_formatting(formatting: Formatting) -> bool {
    &&& formatting.datetime_format@ == "%a %e %b, %H:%M"@
    &&& !formatting.show_venue
    &&& !formatting.show_competition
}

/// The configuration used where none is given: Leinster's next three
/// fixtures, refreshed hourly, dark.
pub open spec fn is_default_config(config: Config) -> bool {
    &&& config.version == 1
    &&& config.teams@.len() == 1
    &&& config.teams@[0]@ == "leinster"@
    &&& config.match_count == 3
    &&& config.refresh == RefreshInterval::Minutes(60)
    &&& config.theme == Theme::Dark
    &&& is_default_formatting(config.formatting)
}

impl Default for RefreshInterval {
    fn default() -> (interval: Self)
        ensures
            interval == RefreshInterval::Minutes(60),
    {
        RefreshInterval::Minutes(60)
    }
}

impl Default for Theme {
    fn default() -> (theme: Self)
        ensures
            theme == Theme::Dark,
    {
        Theme::Dark
    }
}

impl Default for Formatting {
    fn default() -> (formatting: Self)
        ensures
            is_default_formatting(formatting),
    {
        Self {
            datetime_format: String::from_str("%a %e %b, %H:%M"),
            show_venue: false,
            show_competition: false,
        }
    }
}

impl Default for Config {
    fn default() -> (config: Self)
        ensures
            is_default_config(config),
    {
        let mut teams: Vec<String> = Vec::new();
        teams.push(String::from_str("leinster"));
        Self {
            version: 1,
            teams,
            match_count: 3,
            refresh: RefreshInterval::Minutes(60),
            theme: Theme::Dark,
            formatting: Formatting::default(),
        }
    }
}

impl Config {
    /// The configuration to run with: the one that was loaded, or the
    /// default one where the file was missing or could not be read.
    pub fn or_default(loaded: Option<Config>) -> (config: Config)
        ensures
            loaded matches Some(c) ==> config == c,
            loaded is None ==> is_default_config(config),
    {
        match loaded {
            Some(config) => config,
            None => Config::default(),
        }
    }
}

} // verus!
