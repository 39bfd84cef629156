//! The decisions of fetching: which page to ask for next, when a team has
//! enough fixtures, when the next team's turn comes, and what the finished
//! list is. The caller performs each request and reports what came back.

use crate::calendar::MonthCursor;
use crate::document::html_nodes;
use crate::error::{FetchError, NetworkError};
use crate::fixtures::{FixtureList, FixtureView};
use crate::scrape::{get_flist, page_outcome};
use crate::text::{padded, padded_text};
use vstd::prelude::*;
use vstd::string::*;

verus! {

/// What stands in front of the team in a page address.
pub open spec fn url_head() -> Seq<char> {
    "https://www.bbc.com/sport/rugby-union/teams/"@
}

/// What stands between the team and the month in a page address.
pub open spec fn url_tail() -> Seq<char> {
    "/scores-fixtures/"@
}

/// A month as page addresses write it: four digits of year, a hyphen, two
/// digits of month.
pub open spec fn month_text(cursor: MonthCursor) -> Seq<char> {
    padded(cursor.spec_year() as nat, 4) + "-"@ + padded(cursor.spec_month() as nat, 2)
}

/// The address of the page that lists a team's fixtures of a month.
pub open spec fn fixtures_url(team: Seq<char>, cursor: MonthCursor) -> Seq<char> {
    url_head() + team + url_tail() + month_text(cursor)
}

/// How many fixtures to fetch for each of `teams` teams so that the
/// `total` nearest of all can be told: twice the even share, and never
/// fewer than `total`.
pub open spec fn per_team_quota(total: nat, teams: nat) -> nat {
    let share = total * 2 / teams;
    if share > total {
        share
    } else {
        total
    }
}

/// One team's fetch while it is under way.
#[derive(Debug)]
pub struct TeamFetch {
    team: String,
    quota: usize,
    cursor: MonthCursor,
    collected: FixtureList,
}

/// One team's fetch under way, as mathematical values.
pub struct TeamFetchView {
    pub team: Seq<char>,
    pub quota: nat,
    pub cursor: MonthCursor,
    pub collected: Seq<FixtureView>,
}

/// Where one team's fetch stands.
#[derive(Debug)]
pub enum FetchState {
    /// A page is wanted.
    Fetching(TeamFetch),
    /// The fetch is over: the fixtures collected, or the error that ended it.
    Done(Result<FixtureList, FetchError>),
}

/// Where one team's fetch stands, as mathematical values.
pub enum FetchStateView {
    Fetching(TeamFetchView),
    Done(Result<Seq<FixtureView>, FetchError>),
}

/// What a page or a finished fetch gave, as mathematical values.
pub open spec fn outcome_view(outcome: Result<FixtureList, FetchError>) -> Result<
    Seq<FixtureView>,
    FetchError,
> {
    match outcome {
        Ok(list) => Ok(list@),
        Err(e) => Err(e),
    }
}

/// A team's fetch before its first page.
pub open spec fn fresh_fetch(team: Seq<char>, quota: nat, start: MonthCursor) -> TeamFetchView {
    TeamFetchView { team, quota, cursor: start, collected: Seq::empty() }
}

/// The state after a page of the cursor's month gave `outcome`: an error
/// ends the fetch; with the quota met the fetch is done; otherwise the
/// cursor moves on by one month, and a cursor that cannot move ends the
/// fetch with what there is.
pub open spec fn after_outcome(
    state: TeamFetchView,
    outcome: Result<Seq<FixtureView>, FetchError>,
) -> FetchStateView {
    match outcome {
        Err(e) => FetchStateView::Done(Err(e)),
        Ok(fixtures) => {
            let all = state.collected + fixtures;
            if all.len() < state.quota && state.cursor.has_successor() {
                FetchStateView::Fetching(
                    TeamFetchView {
                        team: state.team,
                        quota: state.quota,
                        cursor: state.cursor.successor(),
                        collected: all,
                    },
                )
            } else {
                FetchStateView::Done(Ok(all))
            }
        },
    }
}

impl View for TeamFetch {
    type V = TeamFetchView;

    closed spec fn view(&self) -> TeamFetchView {
        TeamFetchView {
            team: self.team@,
            quota: self.quota as nat,
            cursor: self.cursor,
            collected: self.collected@,
        }
    }
}

impl View for FetchState {
    type V = FetchStateView;

    open spec fn view(&self) -> FetchStateView {
        match self {
            FetchState::Fetching(fetch) => FetchStateView::Fetching(fetch@),
            FetchState::Done(outcome) => FetchStateView::Done(outcome_view(*outcome)),
        }
    }
}

impl FetchState {
    /// A finished fetch hands out a list that has not been read yet.
    pub open spec fn unread(&self) -> bool {
        self matches FetchState::Done(Ok(list)) ==> list.position() == 0
    }
}

/// One cycle of the fetch loop: a page that fails ends the fetch with its
/// error. Otherwise its fixtures are added behind those collected, none is
/// cut, and the fetch goes on exactly while fewer than the quota are
/// collected and a later month exists; it then asks for the month that
/// follows, for the same team and quota. A finished fetch so holds at
/// least the quota unless the months ran out.
pub proof fn lemma_fetch_cycle(state: TeamFetchView, outcome: Result<Seq<FixtureView>, FetchError>)
    requires
        state.cursor.wf(),
    ensures
        outcome matches Err(e) ==> after_outcome(state, outcome) == FetchStateView::Done(
            Err(e),
        ),
        outcome matches Ok(fixtures) ==> match after_outcome(state, outcome) {
            FetchStateView::Fetching(next) => {
                &&& state.collected.len() + fixtures.len() < state.quota
                &&& next.collected == state.collected + fixtures
                &&& next.team == state.team
                &&& next.quota == state.quota
                &&& next.cursor.wf()
                &&& next.cursor.ordinal() == state.cursor.ordinal() + 1
            },
            FetchStateView::Done(done) => {
                &&& done == Ok::<Seq<FixtureView>, FetchError>(state.collected + fixtures)
                &&& state.collected.len() + fixtures.len() >= state.quota
                    || !state.cursor.has_successor()
            },
        },
{
    if state.cursor.has_successor() {
        state.cursor.lemma_successor();
    }
}

/// The address of the page that lists `team`'s fixtures of the cursor's
/// month.
pub fn get_url(team: &str, cursor: MonthCursor) -> (url: String)
    ensures
        url@ == fixtures_url(team@, cursor),
{
    let mut url = String::from_str("https://www.bbc.com/sport/rugby-union/teams/");
    url.append(team);
    url.append("/scores-fixtures/");
    let year = padded_text(cursor.year(), 4);
    url.append(year.as_str());
    url.append("-");
    let month = padded_text(cursor.month(), 2);
    url.append(month.as_str());
    url
}

/// The number of fixtures to fetch per team, or `None` where there is no
/// team or the number does not fit.
pub fn per_team_fetch_count(match_count: usize, teams: usize) -> (count: Option<usize>)
    ensures
        count is Some <==> teams > 0 && per_team_quota(match_count as nat, teams as nat)
            <= usize::MAX,
        count matches Some(c) ==> c == per_team_quota(match_count as nat, teams as nat),
{
    if teams == 0 {
        return None;
    }
    let share: u128 = (match_count as u128) * 2 / (teams as u128);
    if share > match_count as u128 {
        if share > usize::MAX as u128 {
            None
        } else {
            Some(share as usize)
        }
    } else {
        Some(match_count)
    }
}

impl TeamFetch {
    /// Nothing has been handed out of the list collected so far.
    #[verifier::type_invariant]
    closed spec fn wf(self) -> bool {
        self.collected.position() == 0
    }

    /// A fetch for `team` that wants `quota` fixtures and starts at the
    /// month `start`.
    pub fn new(team: String, quota: usize, start: MonthCursor) -> (fetch: TeamFetch)
        ensures
            fetch@ == fresh_fetch(team@, quota as nat, start),
    {
        TeamFetch { team, quota, cursor: start, collected: FixtureList::new() }
    }

    /// The month whose page is wanted.
    pub fn cursor(&self) -> (cursor: MonthCursor)
        ensures
            cursor == self@.cursor,
    {
        self.cursor
    }

    /// How many fixtures have been collected.
    pub fn collected_count(&self) -> (count: usize)
        ensures
            count == self@.collected.len(),
    {
        self.collected.get_len()
    }

    /// The address of the page that is wanted.
    pub fn url(&self) -> (url: String)
        ensures
            url@ == fixtures_url(self@.team, self@.cursor),
    {
        get_url(self.team.as_str(), self.cursor)
    }

    /// Takes in what the wanted page gave and decides how to go on.
    pub fn on_outcome(self, outcome: Result<FixtureList, FetchError>) -> (state: FetchState)
        ensures
            state@ == after_outcome(self@, outcome_view(outcome)),
            state.unread(),
    {
        proof {
            use_type_invariant(&self);
        }
        match outcome {
            Err(e) => FetchState::Done(Err(e)),
            Ok(fixtures) => {
                let TeamFetch { team, quota, cursor, collected } = self;
                let mut collected = collected;
                collected.append(fixtures);
                if collected.get_len() < quota {
                    match cursor.next_month() {
                        Some(next) => FetchState::Fetching(
                            TeamFetch { team, quota, cursor: next, collected },
                        ),
                        None => FetchState::Done(Ok(collected)),
                    }
                } else {
                    FetchState::Done(Ok(collected))
                }
            },
        }
    }

    /// Takes in the body of the wanted page: reads its fixtures, with the
    /// cursor's year as the year of their dates, and decides how to go on.
    pub fn on_page(self, page: &str) -> (state: FetchState)
        ensures
            state@ == after_outcome(
                self@,
                page_outcome(html_nodes(page@), self@.cursor.spec_year()),
            ),
            state.unread(),
    {
        let year = self.cursor.year() as i32;
        let mut fresh = FixtureList::new();
        match get_flist(page, &mut fresh, year) {
            Ok(_) => self.on_outcome(Ok(fresh)),
            Err(e) => self.on_outcome(Err(e)),
        }
    }

    /// Takes in that the request for the wanted page failed: the fetch ends
    /// with that error.
    pub fn on_failure(self, error: NetworkError) -> (state: FetchState)
        ensures
            state@ == FetchStateView::Done(Err(FetchError::Network(error))),
    {
        FetchState::Done(Err(FetchError::Network(error)))
    }
}

} // verus!
