//! From a fetched page to fixtures: the region that holds them, the four
//! parallel lists read from it, and the records they pair up to.

use crate::datetime::{format_datetimes, resolve_spec, resolved_at};
use crate::document::{
    collected, first_match, html_nodes, subtree_end, Document, NodeView, Pattern,
};
use crate::error::{ExtractionError, FetchError, TimeError};
use crate::fixtures::{Fixture, FixtureList, FixtureView, Teams};
use crate::text::texts;
use vstd::prelude::*;
use vstd::string::*;

verus! {

/// The four lists read from a page, in document order. `team_names` holds
/// home and away side by turns.
#[derive(Clone, Debug, PartialEq, Eq)]
pub struct FixtureBatch {
    pub dates: Vec<String>,
    pub times: Vec<String>,
    pub competitions: Vec<String>,
    pub team_names: Vec<String>,
}

/// The four lists, as mathematical values.
pub struct BatchView {
    pub dates: Seq<Seq<char>>,
    pub times: Seq<Seq<char>>,
    pub competitions: Seq<Seq<char>>,
    pub team_names: Seq<Seq<char>>,
}

impl View for FixtureBatch {
    type V = BatchView;

    open spec fn view(&self) -> BatchView {
        BatchView {
            dates: texts(self.dates@),
            times: texts(self.times@),
            competitions: texts(self.competitions@),
            team_names: texts(self.team_names@),
        }
    }
}

/// The element that holds the fixtures: the first grouping element inside
/// the first anchor of the page.
pub open spec fn fixture_region(nodes: Seq<NodeView>) -> Option<int> {
    match first_match(nodes, 0, nodes.len() as int, Pattern::Anchor) {
        Some(anchor) => first_match(
            nodes,
            anchor + 1,
            subtree_end(nodes, anchor),
            Pattern::Group,
        ),
        None => None,
    }
}

/// The lists read below the element at `region`; `None` if one of the
/// elements read has no text.
pub open spec fn region_batch(nodes: Seq<NodeView>, region: int) -> Option<BatchView> {
    let lo = region + 1;
    let hi = subtree_end(nodes, region);
    match (
        collected(nodes, lo, hi, Pattern::Date),
        collected(nodes, lo, hi, Pattern::Competition),
        collected(nodes, lo, hi, Pattern::Time),
        collected(nodes, lo, hi, Pattern::TeamName),
    ) {
        (Some(dates), Some(competitions), Some(times), Some(team_names)) => Some(
            BatchView { dates, times, competitions, team_names },
        ),
        _ => None,
    }
}

/// What extraction makes of a page.
pub open spec fn extract_spec(nodes: Seq<NodeView>) -> Result<BatchView, ExtractionError> {
    match fixture_region(nodes) {
        Some(region) => match region_batch(nodes, region) {
            Some(batch) => Ok(batch),
            None => Err(ExtractionError::SchemaMismatch),
        },
        None => Err(ExtractionError::StructureNotFound),
    }
}

/// Every date has its time and its competition, and two team names.
pub open spec fn pairs_up(batch: BatchView) -> bool {
    &&& batch.times.len() == batch.dates.len()
    &&& batch.competitions.len() == batch.dates.len()
    &&& batch.team_names.len() == 2 * batch.dates.len()
}

/// The first pair at or behind `from` that does not resolve to an instant,
/// or the number of pairs if all of them do.
pub open spec fn first_unresolved(
    times: Seq<Seq<char>>,
    dates: Seq<Seq<char>>,
    year: int,
    from: int,
) -> int
    decreases times.len() - from,
{
    if from < 0 || from >= times.len() {
        times.len() as int
    } else if resolve_spec(times[from], dates[from], year) is Err {
        from
    } else {
        first_unresolved(times, dates, year, from + 1)
    }
}

/// The `i`-th fixture of a batch whose kick-offs all resolve.
pub open spec fn batch_fixture(batch: BatchView, year: int, i: int) -> FixtureView {
    FixtureView {
        home: batch.team_names[2 * i],
        away: batch.team_names[2 * i + 1],
        kickoff: resolve_spec(batch.times[i], batch.dates[i], year)->Ok_0 as int,
        competition: batch.competitions[i],
    }
}

/// The fixtures of a batch: a batch whose lists do not pair up is a schema
/// mismatch, and the first kick-off that does not resolve fails the whole
/// batch with its error.
pub open spec fn batch_outcome(batch: BatchView, year: int) -> Result<
    Seq<FixtureView>,
    FetchError,
> {
    if !pairs_up(batch) {
        Err(FetchError::Extraction(ExtractionError::SchemaMismatch))
    } else {
        let k = first_unresolved(batch.times, batch.dates, year, 0);
        if k < batch.dates.len() {
            Err(FetchError::Time(resolve_spec(batch.times[k], batch.dates[k], year)->Err_0))
        } else {
            Ok(Seq::new(batch.dates.len(), |i: int| batch_fixture(batch, year, i)))
        }
    }
}

/// The fixtures read below the element at `region`.
pub open spec fn region_outcome(nodes: Seq<NodeView>, region: int, year: int) -> Result<
    Seq<FixtureView>,
    FetchError,
> {
    match region_batch(nodes, region) {
        Some(batch) => batch_outcome(batch, year),
        None => Err(FetchError::Extraction(ExtractionError::SchemaMismatch)),
    }
}

/// The fixtures of a page.
pub open spec fn page_outcome(nodes: Seq<NodeView>, year: int) -> Result<
    Seq<FixtureView>,
    FetchError,
> {
    match fixture_region(nodes) {
        Some(region) => region_outcome(nodes, region, year),
        None => Err(FetchError::Extraction(ExtractionError::StructureNotFound)),
    }
}

/// A list extended by what a page gave, or left alone where the page
/// failed.
pub open spec fn list_after(
    before: Seq<FixtureView>,
    outcome: Result<Seq<FixtureView>, FetchError>,
) -> Seq<FixtureView> {
    match outcome {
        Ok(fixtures) => before + fixtures,
        Err(_) => before,
    }
}

/// What a caller is told after a page: the new length of the list, or the
/// page's error.
pub open spec fn report_after(
    before: Seq<FixtureView>,
    outcome: Result<Seq<FixtureView>, FetchError>,
) -> Result<usize, FetchError> {
    match outcome {
        Ok(fixtures) => Ok((before.len() + fixtures.len()) as usize),
        Err(e) => Err(e),
    }
}

/// If the pairs from `from` up to `k` resolve and the one at `k`, if there
/// is one, does not, `k` is the first unresolved pair.
proof fn lemma_first_unresolved(
    times: Seq<Seq<char>>,
    dates: Seq<Seq<char>>,
    year: int,
    from: int,
    k: int,
)
    requires
        0 <= from <= k <= times.len(),
        forall|j: int| from <= j < k ==> resolve_spec(#[trigger] times[j], dates[j], year) is Ok,
        k < times.len() ==> resolve_spec(times[k], dates[k], year) is Err,
    ensures
        first_unresolved(times, dates, year, from) == k,
    decreases k - from,
{
    if from < k {
        lemma_first_unresolved(times, dates, year, from + 1, k);
    }
}

/// A page whose lists do not pair up, say three dates with five team
/// names, gives no fixture at all: it fails as a schema mismatch before any
/// team name is looked up. Where the lists do pair up and every kick-off
/// resolves, there is one fixture for each date, and the `i`-th takes the
/// team names at `2i` and `2i + 1`, both of which exist.
pub proof fn lemma_schema_is_checked_first(batch: BatchView, year: int)
    ensures
        !pairs_up(batch) ==> batch_outcome(batch, year) == Err::<Seq<FixtureView>, FetchError>(
            FetchError::Extraction(ExtractionError::SchemaMismatch),
        ),
        batch_outcome(batch, year) matches Ok(fixtures) ==> {
            &&& pairs_up(batch)
            &&& fixtures.len() == batch.dates.len()
            &&& forall|i: int|
                0 <= i < fixtures.len() ==> {
                    &&& 2 * i + 1 < batch.team_names.len()
                    &&& (#[trigger] fixtures[i]).home == batch.team_names[2 * i]
                    &&& fixtures[i].away == batch.team_names[2 * i + 1]
                    &&& fixtures[i].competition == batch.competitions[i]
                    &&& resolve_spec(batch.times[i], batch.dates[i], year) == Ok::<
                        i64,
                        TimeError,
                    >(fixtures[i].kickoff as i64)
                }
        },
{
    if pairs_up(batch) && batch_outcome(batch, year) is Ok {
        let fixtures = batch_outcome(batch, year)->Ok_0;
        assert forall|i: int| 0 <= i < fixtures.len() implies resolve_spec(
            batch.times[i],
            batch.dates[i],
            year,
        ) is Ok by {
            lemma_resolved_before_first_unresolved(batch.times, batch.dates, year, 0, i);
        }
    }
}

/// Every pair from `from` up to the first unresolved one resolves.
proof fn lemma_resolved_before_first_unresolved(
    times: Seq<Seq<char>>,
    dates: Seq<Seq<char>>,
    year: int,
    from: int,
    i: int,
)
    requires
        0 <= from <= i < first_unresolved(times, dates, year, from),
    ensures
        i < times.len(),
        resolve_spec(times[i], dates[i], year) is Ok,
    decreases i - from,
{
    if from < i {
        lemma_resolved_before_first_unresolved(times, dates, year, from + 1, i);
    }
}

/// The element that holds the fixtures, if the page has it.
pub fn get_child_nodes(document: &Document) -> (region: Option<usize>)
    ensures
        region is Some <==> fixture_region(document@) is Some,
        region matches Some(r) ==> Some(r as int) == fixture_region(document@) && r
            < document@.len(),
{
    let total = document.len();
    match document.first_match(0, total, Pattern::Anchor) {
        Some(anchor) => {
            let end = document.subtree_end(anchor);
            document.first_match(anchor + 1, end, Pattern::Group)
        },
        None => None,
    }
}

/// Reads the four lists below the element at `region`.
pub fn read_batch(document: &Document, region: usize) -> (batch: Option<FixtureBatch>)
    requires
        region < document@.len(),
    ensures
        batch is Some <==> region_batch(document@, region as int) is Some,
        batch matches Some(b) ==> Some(b@) == region_batch(document@, region as int),
{
    let hi = document.subtree_end(region);
    let lo = region + 1;
    let dates = document.collect(lo, hi, Pattern::Date);
    let competitions = document.collect(lo, hi, Pattern::Competition);
    let times = document.collect(lo, hi, Pattern::Time);
    let team_names = document.collect(lo, hi, Pattern::TeamName);
    match (dates, competitions, times, team_names) {
        (Some(dates), Some(competitions), Some(times), Some(team_names)) => Some(
            FixtureBatch { dates, times, competitions, team_names },
        ),
        _ => None,
    }
}

/// Reads the four lists of a page.
pub fn extract(document: &Document) -> (batch: Result<FixtureBatch, ExtractionError>)
    ensures
        batch is Ok <==> extract_spec(document@) is Ok,
        batch matches Ok(b) ==> Ok::<BatchView, ExtractionError>(b@) == extract_spec(document@),
        batch matches Err(e) ==> Err::<BatchView, ExtractionError>(e) == extract_spec(document@),
{
    match get_child_nodes(document) {
        Some(region) => match read_batch(document, region) {
            Some(batch) => Ok(batch),
            None => Err(ExtractionError::SchemaMismatch),
        },
        None => Err(ExtractionError::StructureNotFound),
    }
}

/// Whether the lists of a batch pair up.
pub fn check_schema(batch: &FixtureBatch) -> (ok: bool)
    ensures
        ok == pairs_up(batch@),
{
    let n = batch.dates.len();
    batch.times.len() == n && batch.competitions.len() == n && batch.team_names.len() / 2 == n
        && batch.team_names.len() % 2 == 0
}

/// Pairs a batch up to fixtures, resolving each kick-off in the year `year`.
pub fn build_fixtures(batch: FixtureBatch, year: i32) -> (fixtures: Result<FixtureList, FetchError>)
    ensures
        fixtures is Ok <==> batch_outcome(batch@, year as int) is Ok,
        fixtures matches Ok(list) ==> Ok::<Seq<FixtureView>, FetchError>(list@) == batch_outcome(
            batch@,
            year as int,
        ) && list.position() == 0,
        fixtures matches Err(e) ==> Err::<Seq<FixtureView>, FetchError>(e) == batch_outcome(
            batch@,
            year as int,
        ),
{
    if !check_schema(&batch) {
        return Err(FetchError::Extraction(ExtractionError::SchemaMismatch));
    }
    let ghost view = batch@;
    let FixtureBatch { dates, times, competitions, team_names } = batch;
    let n = competitions.len();
    let names = team_names.len();
    match format_datetimes(times, dates, year) {
        Err(e) => {
            proof {
                let k = choose|k: int|
                    {
                        &&& 0 <= k < n
                        &&& #[trigger] resolved_at(view.times, view.dates, year as int, k) == Err::<
                            i64,
                            TimeError,
                        >(e)
                        &&& forall|j: int|
                            0 <= j < k ==> (#[trigger] resolved_at(
                                view.times,
                                view.dates,
                                year as int,
                                j,
                            )) is Ok
                    };
                assert forall|j: int| 0 <= j < k implies resolve_spec(
                    #[trigger] view.times[j],
                    view.dates[j],
                    year as int,
                ) is Ok by {
                    assert(resolved_at(view.times, view.dates, year as int, j) is Ok);
                }
                lemma_first_unresolved(view.times, view.dates, year as int, 0, k);
            }
            Err(FetchError::Time(e))
        },
        Ok(instants) => {
            proof {
                assert forall|j: int| 0 <= j < n implies resolve_spec(
                    #[trigger] view.times[j],
                    view.dates[j],
                    year as int,
                ) is Ok by {
                    assert(resolved_at(view.times, view.dates, year as int, j) is Ok);
                }
                lemma_first_unresolved(view.times, view.dates, year as int, 0, n as int);
            }
            let mut list = FixtureList::new();
            let mut i: usize = 0;
            while i < n
                invariant
                    i <= n,
                    names == 2 * n,
                    names == team_names@.len(),
                    n == view.dates.len(),
                    n == view.times.len(),
                    n == instants@.len(),
                    n == competitions@.len(),
                    view.competitions == texts(competitions@),
                    view.team_names == texts(team_names@),
                    list.position() == 0,
                    list@.len() == i,
                    forall|j: int|
                        0 <= j < n ==> #[trigger] resolved_at(
                            view.times,
                            view.dates,
                            year as int,
                            j,
                        ) == Ok::<i64, TimeError>(instants@[j]),
                    forall|j: int| 0 <= j < i ==> list@[j] == batch_fixture(view, year as int, j),
                decreases n - i,
            {
                let mut current = Teams::new();
                current.home = team_names[2 * i].clone();
                current.away = team_names[2 * i + 1].clone();
                let fx = Fixture::new(current, instants[i], competitions[i].clone());
                assert(resolved_at(view.times, view.dates, year as int, i as int) == Ok::<
                    i64,
                    TimeError,
                >(instants@[i as int]));
                list.push_fx(fx);
                i += 1;
            }
            assert(list@ =~= Seq::new(
                view.dates.len(),
                |i: int| batch_fixture(view, year as int, i),
            ));
            Ok(list)
        },
    }
}

/// Reads the fixtures below the element at `region` and adds them to
/// `fxlist`; on an error the list stays as it was. Gives the new length of
/// the list.
pub fn populate_flist(
    document: &Document,
    region: usize,
    fxlist: &mut FixtureList,
    year: i32,
) -> (len: Result<usize, FetchError>)
    requires
        region < document@.len(),
    ensures
        final(fxlist)@ == list_after(
            old(fxlist)@,
            region_outcome(document@, region as int, year as int),
        ),
        final(fxlist).position() == old(fxlist).position(),
        len == report_after(old(fxlist)@, region_outcome(document@, region as int, year as int)),
{
    match read_batch(document, region) {
        Some(batch) => match build_fixtures(batch, year) {
            Ok(fixtures) => {
                fxlist.append(fixtures);
                Ok(fxlist.get_len())
            },
            Err(e) => Err(e),
        },
        None => Err(FetchError::Extraction(ExtractionError::SchemaMismatch)),
    }
}

/// Reads the fixtures of the page `page` and adds them to `fxlist`; on an
/// error the list stays as it was. Gives the new length of the list.
pub fn get_flist(page: &str, fxlist: &mut FixtureList, year: i32) -> (len: Result<
    usize,
    FetchError,
>)
    ensures
        final(fxlist)@ == list_after(old(fxlist)@, page_outcome(html_nodes(page@), year as int)),
        final(fxlist).position() == old(fxlist).position(),
        len == report_after(old(fxlist)@, page_outcome(html_nodes(page@), year as int)),
{
    let document = Document::parse(page);
    match get_child_nodes(&document) {
        Some(region) => populate_flist(&document, region, fxlist, year),
        None => Err(FetchError::Extraction(ExtractionError::StructureNotFound)),
    }
}

} // verus!
