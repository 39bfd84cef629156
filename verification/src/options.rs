//! Options for a single team's view.

use vstd::prelude::*;
use vstd::string::*;

verus! {

/// The teams that can be followed.
#[derive(Clone, Copy, Debug, PartialEq, Eq, Hash, Structural)]
pub enum TeamScope {
    Leinster,
    Munster,
    Connacht,
    Ulster,
    Ireland,
}

/// What to show for one team, and how.
#[derive(Debug)]
pub struct UserOptions {
    pub team: TeamScope,
    pub nfix: usize,
    pub icon_style: String,
    pub date_format: String,
}

/// The name under which the source knows a team.
pub open spec fn team_name(team: TeamScope) -> Seq<char> {
    match team {
        TeamScope::Leinster => "leinster"@,
        TeamScope::Munster => "munster"@,
        TeamScope::Connacht => "connacht"@,
        TeamScope::Ulster => "ulster"@,
        TeamScope::Ireland => "ireland"@,
    }
}

impl TeamScope {
    /// The team's name in lower case, as the source's addresses spell it.
    pub fn as_str(&self) -> (name: &'static str)
        ensures
            name@ == team_name(*self),
    {
        match self {
            TeamScope::Leinster => "leinster",
            TeamScope::Munster => "munster",
            TeamScope::Connacht => "connacht",
            TeamScope::Ulster => "ulster",
            TeamScope::Ireland => "ireland",
        }
    }

    /// The team's name as an owned text.
    pub fn to_text(&self) -> (name: String)
        ensures
            name@ == team_name(*self),
    {
        String::from_str(self.as_str())
    }
}

} // verus!
