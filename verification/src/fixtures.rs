//! Fixture records and the list that collects them, orders them by kick-off
//! and cuts them to the number wanted.

use vstd::multiset::*;
use vstd::prelude::*;
use vstd::seq_lib::*;
use vstd::string::*;

verus! {

/// The two sides of a fixture.
#[derive(Clone, Debug)]
pub struct Teams {
    pub home: String,
    pub away: String,
}

/// A scheduled match: who plays, the instant of kick-off in seconds since the
/// Unix epoch (UTC), and the competition it belongs to.
#[derive(Clone, Debug)]
pub struct Fixture {
    teams: Teams,
    kickoff: i64,
    competition: String,
}

/// Fixtures in the order they were added, with a reading position.
#[derive(Debug)]
pub struct FixtureList {
    fixtures: Vec<Fixture>,
    idx: usize,
}

/// What a fixture says, as mathematical values.
pub struct FixtureView {
    pub home: Seq<char>,
    pub away: Seq<char>,
    pub kickoff: int,
    pub competition: Seq<char>,
}

/// The name both sides carry until a real one is filled in.
pub open spec fn placeholder_name() -> Seq<char> {
    "TEAM PLACEHOLDER"@
}

/// The line shown for a fixture: both sides, then the kick-off as the
/// caller rendered it.
pub open spec fn fixture_line(fixture: FixtureView, datetime: Seq<char>) -> Seq<char> {
    fixture.home + " vs "@ + fixture.away + ", "@ + datetime
}

/// No fixture stands before an earlier one.
pub open spec fn is_time_ordered(s: Seq<FixtureView>) -> bool {
    forall|i: int, j: int| 0 <= i < j < s.len() ==> s[i].kickoff <= s[j].kickoff
}

/// Where a fixture kicking off at `instant` enters `s`: in front of the first
/// fixture that does not kick off earlier.
pub open spec fn insertion_point(s: Seq<FixtureView>, instant: int) -> int
    decreases s.len(),
{
    if s.len() == 0 || s[0].kickoff >= instant {
        0
    } else {
        1 + insertion_point(s.drop_first(), instant)
    }
}

/// `s` ordered by kick-off, fixtures with the same kick-off in the order
/// they had in `s`.
pub open spec fn sorted_by_time(s: Seq<FixtureView>) -> Seq<FixtureView>
    decreases s.len(),
{
    if s.len() == 0 {
        s
    } else {
        let rest = sorted_by_time(s.drop_first());
        rest.insert(insertion_point(rest, s[0].kickoff), s[0])
    }
}

/// The first `n` fixtures of `s`, or all of `s` if it has fewer.
pub open spec fn truncated(s: Seq<FixtureView>, n: nat) -> Seq<FixtureView> {
    if n < s.len() {
        s.take(n as int)
    } else {
        s
    }
}

impl Teams {
    pub fn new() -> (teams: Teams)
        ensures
            teams.home@ == placeholder_name(),
            teams.away@ == placeholder_name(),
    {
        Teams {
            home: String::from_str("TEAM PLACEHOLDER"),
            away: String::from_str("TEAM PLACEHOLDER"),
        }
    }
}

impl View for Fixture {
    type V = FixtureView;

    closed spec fn view(&self) -> FixtureView {
        FixtureView {
            home: self.teams.home@,
            away: self.teams.away@,
            kickoff: self.kickoff as int,
            competition: self.competition@,
        }
    }
}

impl Fixture {
    pub fn new(teams: Teams, kickoff: i64, competition: String) -> (fixture: Fixture)
        ensures
            fixture@ == (FixtureView {
                home: teams.home@,
                away: teams.away@,
                kickoff: kickoff as int,
                competition: competition@,
            }),
    {
        Fixture { teams, kickoff, competition }
    }

    pub fn home(&self) -> (name: &String)
        ensures
            name@ == self@.home,
    {
        &self.teams.home
    }

    pub fn away(&self) -> (name: &String)
        ensures
            name@ == self@.away,
    {
        &self.teams.away
    }

    /// Kick-off, in seconds since the Unix epoch.
    pub fn kickoff(&self) -> (instant: i64)
        ensures
            instant == self@.kickoff,
    {
        self.kickoff
    }

    pub fn competition(&self) -> (name: &String)
        ensures
            name@ == self@.competition,
    {
        &self.competition
    }

    /// A second record that says the same.
    pub fn duplicate(&self) -> (copy: Fixture)
        ensures
            copy@ == self@,
    {
        Fixture {
            teams: Teams { home: self.teams.home.clone(), away: self.teams.away.clone() },
            kickoff: self.kickoff,
            competition: self.competition.clone(),
        }
    }

    /// The display line of the fixture, `datetime` being the kick-off as the
    /// caller wants it shown.
    pub fn format_fixture(&self, datetime: &str) -> (line: String)
        ensures
            line@ == fixture_line(self@, datetime@),
    {
        let mut line = self.teams.home.clone();
        line.append(" vs ");
        line.append(self.teams.away.as_str());
        line.append(", ");
        line.append(datetime);
        line
    }
}

impl View for FixtureList {
    type V = Seq<FixtureView>;

    closed spec fn view(&self) -> Seq<FixtureView> {
        self.fixtures@.map_values(|f: Fixture| f@)
    }
}

impl FixtureList {
    /// How many fixtures `next` has handed out.
    pub closed spec fn position(&self) -> nat {
        self.idx as nat
    }

    pub fn new() -> (list: FixtureList)
        ensures
            list@ == Seq::<FixtureView>::empty(),
            list.position() == 0,
    {
        FixtureList { fixtures: Vec::<Fixture>::new(), idx: 0 }
    }

    pub fn push_fx(&mut self, fx: Fixture)
        ensures
            final(self)@ == old(self)@.push(fx@),
            final(self).position() == old(self).position(),
    {
        self.fixtures.push(fx);
    }

    pub fn get_len(&self) -> (len: usize)
        ensures
            len == self@.len(),
    {
        return self.fixtures.len();
    }

    /// The fixture at `index`.
    pub fn get(&self, index: usize) -> (fixture: &Fixture)
        requires
            index < self@.len(),
        ensures
            fixture@ == self@[index as int],
    {
        &self.fixtures[index]
    }

    /// Moves every fixture of `other` to the end of this list, in order.
    pub fn append(&mut self, other: FixtureList)
        ensures
            final(self)@ == old(self)@ + other@,
            final(self).position() == old(self).position(),
    {
        let mut moved = other.fixtures;
        self.fixtures.append(&mut moved);
    }

    /// Keeps the first `n` fixtures; a list that has no more than `n` stays
    /// as it is.
    pub fn truncate(&mut self, n: usize)
        ensures
            final(self)@ == truncated(old(self)@, n as nat),
            final(self).position() == old(self).position(),
    {
        self.fixtures.truncate(n);
    }

    /// Orders the list by kick-off, earliest first; fixtures that kick off
    /// at the same instant keep the order they had.
    pub fn sort_by_time(&mut self)
        ensures
            final(self)@ == sorted_by_time(old(self)@),
            is_time_ordered(final(self)@),
            final(self)@.to_multiset() == old(self)@.to_multiset(),
            final(self)@.len() == old(self)@.len(),
            final(self).position() == old(self).position(),
    {
        let ghost before = self@;
        let mut sorted: Vec<Fixture> = Vec::new();
        while self.fixtures.len() > 0
            invariant
                self.idx == old(self).idx,
                self.fixtures@.len() <= before.len(),
                self@ == before.take(self.fixtures@.len() as int),
                sorted@.map_values(|f: Fixture| f@) == sorted_by_time(
                    before.skip(self.fixtures@.len() as int),
                ),
            decreases self.fixtures@.len(),
        {
            let ghost remaining = self.fixtures@.len() as int;
            assert(self@[remaining - 1] == before[remaining - 1]);
            let fixture = self.fixtures.pop().unwrap();
            let ghost placed = sorted@.map_values(|f: Fixture| f@);
            let mut at: usize = 0;
            while at < sorted.len() && sorted[at].kickoff < fixture.kickoff
                invariant
                    at <= sorted@.len(),
                    placed == sorted@.map_values(|f: Fixture| f@),
                    forall|j: int| 0 <= j < at ==> placed[j].kickoff < fixture@.kickoff,
                decreases sorted@.len() - at,
            {
                at += 1;
            }
            proof {
                lemma_insertion_point_found(placed, fixture@.kickoff, at as int);
                let suffix = before.skip(remaining - 1);
                assert(suffix.drop_first() =~= before.skip(remaining));
            }
            sorted.insert(at, fixture);
        }
        self.fixtures = sorted;
        proof {
            assert(before.skip(0) =~= before);
            lemma_sorted_is_time_ordered(before);
            lemma_sorted_keeps_fixtures(before);
        }
    }

    /// Hands out a copy of the fixture at the reading position and moves the
    /// position on; `None` once every fixture has been handed out.
    pub fn next(&mut self) -> (item: Option<Fixture>)
        ensures
            final(self)@ == old(self)@,
            old(self).position() < old(self)@.len() ==> {
                &&& item matches Some(f)
                &&& f@ == old(self)@[old(self).position() as int]
                &&& final(self).position() == old(self).position() + 1
            },
            old(self).position() >= old(self)@.len() ==> {
                &&& item is None
                &&& final(self).position() == old(self).position()
            },
    {
        if self.idx < self.fixtures.len() {
            let result = self.fixtures[self.idx].duplicate();
            self.idx += 1;
            Some(result)
        } else {
            None
        }
    }
}

/// In a sequence whose first `at` fixtures kick off before `instant` and
/// whose next one, if any, does not, the insertion point is `at`.
proof fn lemma_insertion_point_found(s: Seq<FixtureView>, instant: int, at: int)
    requires
        0 <= at <= s.len(),
        forall|j: int| 0 <= j < at ==> s[j].kickoff < instant,
        at < s.len() ==> s[at].kickoff >= instant,
    ensures
        insertion_point(s, instant) == at,
    decreases s.len(),
{
    if s.len() != 0 && s[0].kickoff < instant {
        let rest = s.drop_first();
        lemma_insertion_point_found(rest, instant, at - 1);
    }
}

/// The insertion point lies within the sequence; every fixture in front of
/// it kicks off earlier than `instant`, and the one at it does not.
pub proof fn lemma_insertion_point_splits(s: Seq<FixtureView>, instant: int)
    ensures
        0 <= insertion_point(s, instant) <= s.len(),
        forall|j: int| 0 <= j < insertion_point(s, instant) ==> s[j].kickoff < instant,
        insertion_point(s, instant) < s.len() ==> s[insertion_point(s, instant)].kickoff
            >= instant,
    decreases s.len(),
{
    if s.len() != 0 && s[0].kickoff < instant {
        let rest = s.drop_first();
        lemma_insertion_point_splits(rest, instant);
        assert forall|j: int| 0 <= j < insertion_point(s, instant) implies s[j].kickoff
            < instant by {
            if j > 0 {
                assert(s[j] == rest[j - 1]);
            }
        }
    }
}

/// Ordering by kick-off gives a time-ordered sequence of the same length.
pub proof fn lemma_sorted_is_time_ordered(s: Seq<FixtureView>)
    ensures
        is_time_ordered(sorted_by_time(s)),
        sorted_by_time(s).len() == s.len(),
    decreases s.len(),
{
    if s.len() != 0 {
        let rest = sorted_by_time(s.drop_first());
        lemma_sorted_is_time_ordered(s.drop_first());
        lemma_insertion_point_splits(rest, s[0].kickoff);
    }
}

/// Ordering by kick-off neither adds nor loses a fixture.
pub proof fn lemma_sorted_keeps_fixtures(s: Seq<FixtureView>)
    ensures
        sorted_by_time(s).to_multiset() == s.to_multiset(),
    decreases s.len(),
{
    if s.len() != 0 {
        let rest = sorted_by_time(s.drop_first());
        lemma_sorted_keeps_fixtures(s.drop_first());
        lemma_insertion_point_splits(rest, s[0].kickoff);
        to_multiset_insert(rest, insertion_point(rest, s[0].kickoff), s[0]);
        to_multiset_insert(s.drop_first(), 0, s[0]);
        assert(s.drop_first().insert(0, s[0]) =~= s);
    }
}

/// A sequence that is already time-ordered is left as it is.
pub proof fn lemma_sorted_is_fixed_point(s: Seq<FixtureView>)
    requires
        is_time_ordered(s),
    ensures
        sorted_by_time(s) == s,
    decreases s.len(),
{
    if s.len() != 0 {
        let rest = s.drop_first();
        lemma_sorted_is_fixed_point(rest);
    }
}

/// The fixtures of several teams, put one list after the other and then
/// ordered, form one time-ordered list that holds exactly the fixtures of
/// both; cutting it to a length it does not exceed changes nothing.
pub proof fn lemma_merged_lists_are_ordered(a: Seq<FixtureView>, b: Seq<FixtureView>, n: nat)
    ensures
        is_time_ordered(sorted_by_time(a + b)),
        sorted_by_time(a + b).to_multiset() == a.to_multiset().add(b.to_multiset()),
        is_time_ordered(truncated(sorted_by_time(a + b), n)),
        n >= a.len() + b.len() ==> truncated(sorted_by_time(a + b), n) == sorted_by_time(a + b),
{
    lemma_sorted_is_time_ordered(a + b);
    lemma_sorted_keeps_fixtures(a + b);
    lemma_multiset_commutative(a, b);
}

} // verus!
