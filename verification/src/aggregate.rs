//! Several teams' fixtures as one list: each team is fetched in turn from
//! the same starting month, the lists are put together, ordered by kick-off
//! and cut to the number wanted.

use crate::calendar::MonthCursor;
use crate::config::Config;
use crate::document::html_nodes;
use crate::error::{FetchError, NetworkError};
use crate::fetch::{
    after_outcome, fixtures_url, fresh_fetch, outcome_view, per_team_fetch_count, per_team_quota,
    FetchState, FetchStateView, TeamFetch, TeamFetchView,
};
use crate::fixtures::{is_time_ordered, sorted_by_time, truncated, FixtureList, FixtureView};
use crate::scrape::page_outcome;
use crate::text::texts;
use vstd::prelude::*;
use vstd::string::*;

verus! {

/// A run over all teams while it is under way.
#[derive(Debug)]
pub struct Aggregation {
    teams: Vec<String>,
    total_quota: usize,
    per_team: usize,
    start: MonthCursor,
    index: usize,
    current: TeamFetch,
    merged: FixtureList,
}

/// A run under way, as mathematical values.
pub struct AggregationView {
    /// The teams, in the order they are fetched.
    pub teams: Seq<Seq<char>>,
    /// How many fixtures the finished list may hold.
    pub total_quota: nat,
    /// How many fixtures each team's fetch wants.
    pub per_team: nat,
    /// The month every team's fetch starts at.
    pub start: MonthCursor,
    /// Which team is being fetched.
    pub index: nat,
    /// That team's fetch.
    pub current: TeamFetchView,
    /// The fixtures of the teams before it.
    pub merged: Seq<FixtureView>,
}

/// Where a run stands.
#[derive(Debug)]
pub enum AggregationState {
    /// A page is wanted.
    Fetching(Aggregation),
    /// The run is over: the finished list, or the error that ended it.
    Done(Result<FixtureList, FetchError>),
}

/// Where a run stands, as mathematical values.
pub enum AggregationStateView {
    Fetching(AggregationView),
    Done(Result<Seq<FixtureView>, FetchError>),
}

/// The finished list made of all fixtures fetched: ordered by kick-off and
/// cut to `total_quota`.
pub open spec fn finished(merged: Seq<FixtureView>, total_quota: nat) -> Seq<FixtureView> {
    truncated(sorted_by_time(merged), total_quota)
}

/// A run before its first page: the first team's fetch, nothing merged.
pub open spec fn initial_run(
    teams: Seq<Seq<char>>,
    total_quota: nat,
    start: MonthCursor,
) -> AggregationView {
    let per_team = per_team_quota(total_quota, teams.len());
    AggregationView {
        teams,
        total_quota,
        per_team,
        start,
        index: 0,
        current: fresh_fetch(teams[0], per_team, start),
        merged: Seq::empty(),
    }
}

/// The run after the current team's fetch moved to `team_state`: a fetch
/// under way stays the current one; an error ends the run; a finished
/// fetch adds its fixtures and gives way to the next team, or, behind the
/// last team, to the finished list.
pub open spec fn after_team_state(
    run: AggregationView,
    team_state: FetchStateView,
) -> AggregationStateView {
    match team_state {
        FetchStateView::Fetching(fetch) => AggregationStateView::Fetching(
            AggregationView { current: fetch, ..run },
        ),
        FetchStateView::Done(Err(e)) => AggregationStateView::Done(Err(e)),
        FetchStateView::Done(Ok(fixtures)) => {
            let merged = run.merged + fixtures;
            if run.index + 1 < run.teams.len() {
                AggregationStateView::Fetching(
                    AggregationView {
                        index: run.index + 1,
                        current: fresh_fetch(
                            run.teams[(run.index + 1) as int],
                            run.per_team,
                            run.start,
                        ),
                        merged,
                        ..run
                    },
                )
            } else {
                AggregationStateView::Done(Ok(finished(merged, run.total_quota)))
            }
        },
    }
}

impl View for Aggregation {
    type V = AggregationView;

    closed spec fn view(&self) -> AggregationView {
        AggregationView {
            teams: texts(self.teams@),
            total_quota: self.total_quota as nat,
            per_team: self.per_team as nat,
            start: self.start,
            index: self.index as nat,
            current: self.current@,
            merged: self.merged@,
        }
    }
}

impl View for AggregationState {
    type V = AggregationStateView;

    open spec fn view(&self) -> AggregationStateView {
        match self {
            AggregationState::Fetching(run) => AggregationStateView::Fetching(run@),
            AggregationState::Done(outcome) => AggregationStateView::Done(outcome_view(*outcome)),
        }
    }
}

impl AggregationState {
    /// A finished run hands out a list that has not been read yet.
    pub open spec fn unread(&self) -> bool {
        self matches AggregationState::Done(Ok(list)) ==> list.position() == 0
    }
}

/// Orders the fixtures of all teams by kick-off and keeps the first
/// `total_quota`.
pub fn finish(merged: FixtureList, total_quota: usize) -> (list: FixtureList)
    ensures
        list@ == finished(merged@, total_quota as nat),
        is_time_ordered(list@),
        list@.len() <= total_quota,
        list@.len() <= merged@.len(),
        list.position() == merged.position(),
{
    let mut list = merged;
    list.sort_by_time();
    list.truncate(total_quota);
    list
}

impl Aggregation {
    /// The current team is one of the teams, and nothing has been handed
    /// out of the merged list.
    #[verifier::type_invariant]
    closed spec fn wf(self) -> bool {
        &&& self.index < self.teams@.len()
        &&& self.merged.position() == 0
    }

    /// A run over `teams` for `total_quota` fixtures in all, every team
    /// starting at the month `start`; `None` where there is no team or the
    /// per-team number does not fit.
    pub fn begin(teams: Vec<String>, total_quota: usize, start: MonthCursor) -> (run: Option<
        Aggregation,
    >)
        ensures
            run is Some <==> teams@.len() > 0 && per_team_quota(
                total_quota as nat,
                teams@.len(),
            ) <= usize::MAX,
            run matches Some(r) ==> r@ == initial_run(texts(teams@), total_quota as nat, start),
    {
        match per_team_fetch_count(total_quota, teams.len()) {
            Some(per_team) => {
                let current = TeamFetch::new(teams[0].clone(), per_team, start);
                Some(
                    Aggregation {
                        teams,
                        total_quota,
                        per_team,
                        start,
                        index: 0,
                        current,
                        merged: FixtureList::new(),
                    },
                )
            },
            None => None,
        }
    }

    /// The address of the page that is wanted.
    pub fn url(&self) -> (url: String)
        ensures
            url@ == fixtures_url(self@.current.team, self@.current.cursor),
    {
        self.current.url()
    }

    /// Puts a run together again around its current team's new state.
    fn advance(
        teams: Vec<String>,
        total_quota: usize,
        per_team: usize,
        start: MonthCursor,
        index: usize,
        merged: FixtureList,
        team_state: FetchState,
        Ghost(before): Ghost<TeamFetchView>,
    ) -> (state: AggregationState)
        requires
            index < teams@.len(),
            merged.position() == 0,
        ensures
            state@ == after_team_state(
                AggregationView {
                    teams: texts(teams@),
                    total_quota: total_quota as nat,
                    per_team: per_team as nat,
                    start,
                    index: index as nat,
                    current: before,
                    merged: merged@,
                },
                team_state@,
            ),
            state.unread(),
    {
        match team_state {
            FetchState::Fetching(fetch) => AggregationState::Fetching(
                Aggregation { teams, total_quota, per_team, start, index, current: fetch, merged },
            ),
            FetchState::Done(Err(e)) => AggregationState::Done(Err(e)),
            FetchState::Done(Ok(fixtures)) => {
                let mut merged = merged;
                merged.append(fixtures);
                let count = teams.len();
                if index + 1 < count {
                    let next = TeamFetch::new(teams[index + 1].clone(), per_team, start);
                    AggregationState::Fetching(
                        Aggregation {
                            teams,
                            total_quota,
                            per_team,
                            start,
                            index: index + 1,
                            current: next,
                            merged,
                        },
                    )
                } else {
                    AggregationState::Done(Ok(finish(merged, total_quota)))
                }
            },
        }
    }

    /// Takes in where the current team's fetch has moved to and decides how
    /// the run goes on.
    pub fn on_team_state(self, team_state: FetchState) -> (state: AggregationState)
        ensures
            state@ == after_team_state(self@, team_state@),
            state.unread(),
    {
        proof {
            use_type_invariant(&self);
        }
        let ghost before = self@.current;
        let Aggregation { teams, total_quota, per_team, start, index, current, merged } = self;
        Self::advance(
            teams,
            total_quota,
            per_team,
            start,
            index,
            merged,
            team_state,
            Ghost(before),
        )
    }

    /// Takes in the body of the wanted page.
    pub fn on_page(self, page: &str) -> (state: AggregationState)
        ensures
            state@ == after_team_state(
                self@,
                after_outcome(
                    self@.current,
                    page_outcome(html_nodes(page@), self@.current.cursor.spec_year()),
                ),
            ),
            state.unread(),
    {
        proof {
            use_type_invariant(&self);
        }
        let ghost before = self@.current;
        let Aggregation { teams, total_quota, per_team, start, index, current, merged } = self;
        let team_state = current.on_page(page);
        Self::advance(
            teams,
            total_quota,
            per_team,
            start,
            index,
            merged,
            team_state,
            Ghost(before),
        )
    }

    /// Takes in that the request for the wanted page failed: the run ends
    /// with that error.
    pub fn on_failure(self, error: NetworkError) -> (state: AggregationState)
        ensures
            state@ == AggregationStateView::Done(Err(FetchError::Network(error))),
    {
        AggregationState::Done(Err(FetchError::Network(error)))
    }
}

/// Starts the run that a configuration asks for: its teams, its number of
/// fixtures, every team from the month `start`.
pub fn fetch_fixtures(config: &Config, start: MonthCursor) -> (run: Option<Aggregation>)
    ensures
        run is Some <==> config.teams@.len() > 0 && per_team_quota(
            config.match_count as nat,
            config.teams@.len(),
        ) <= usize::MAX,
        run matches Some(r) ==> r@ == initial_run(
            texts(config.teams@),
            config.match_count as nat,
            start,
        ),
{
    let mut teams: Vec<String> = Vec::new();
    let mut i: usize = 0;
    while i < config.teams.len()
        invariant
            i <= config.teams@.len(),
            teams@.len() == i,
            forall|j: int| 0 <= j < i ==> teams@[j]@ == config.teams@[j]@,
        decreases config.teams@.len() - i,
    {
        teams.push(config.teams[i].clone());
        i += 1;
    }
    assert(texts(teams@) =~= texts(config.teams@));
    Aggregation::begin(teams, config.match_count, start)
}

} // verus!
