//! The enrichment engine: back-filling elevation for stored rows that have
//! a position.
//!
//! The engine decides which rows to ask for, turns them into locations for
//! the elevation provider, and turns the provider's answers into the
//! updates to write back. Reading rows, calling the provider and writing
//! the updates is the caller's part, inside one transaction of its own.

use crate::db::{rendered, QueryStringBuilder, QueryView};
use crate::gps::Location;
use vstd::prelude::*;

verus! {

/// The predicates of the query that selects the rows of one table to
/// enrich. Rows need a position. Unless elevation is to be overwritten
/// only rows without one are taken, and a file restricts the rows to its
/// own; its identifier is then the query's one parameter.
pub open spec fn scope_clauses(
    latitude_set: Seq<char>,
    longitude_set: Seq<char>,
    elevation_missing: Seq<char>,
    file_given: bool,
    overwrite: bool,
) -> Seq<Seq<char>> {
    seq![latitude_set, longitude_set] + (if overwrite {
        Seq::empty()
    } else {
        seq![elevation_missing]
    }) + (if file_given {
        seq!["file_id = ?"@]
    } else {
        Seq::empty()
    })
}

/// The query that selects the record rows to enrich: latitude, longitude
/// and row identifier, in this order.
pub open spec fn record_query(file_given: bool, overwrite: bool) -> QueryView {
    QueryView {
        base_query: "select position_lat, position_long, id from record_messages"@,
        where_clauses: scope_clauses(
            "position_lat is not null"@,
            "position_long is not null"@,
            "elevation is null"@,
            file_given,
            overwrite,
        ),
        order_by: Seq::empty(),
        limit: None,
    }
}

/// The query that selects the lap rows to enrich: start latitude and
/// longitude, end latitude and longitude, and row identifier, in this
/// order.
pub open spec fn lap_query(file_given: bool, overwrite: bool) -> QueryView {
    QueryView {
        base_query: "select start_position_lat, start_position_long, end_position_lat, end_position_long, id from lap_messages"@,
        where_clauses: scope_clauses(
            "start_position_lat is not null"@,
            "start_position_long is not null"@,
            "start_elevation is null"@,
            file_given,
            overwrite,
        ),
        order_by: Seq::empty(),
        limit: None,
    }
}

/// Whether a request is refused: overwriting is honoured for one file at a
/// time only, never for the whole store at once.
pub open spec fn refused(file_id: Option<u32>, overwrite: bool) -> bool {
    file_id is None && overwrite
}

/// What an enrichment run has to do.
#[derive(Clone, Debug, PartialEq, Eq)]
pub enum ElevationPlan {
    /// Nothing: the request is refused and no row may be touched.
    Refused,
    /// Select the rows with the two queries, binding `file_id` as their
    /// one parameter if it is there.
    Run { record_query: String, lap_query: String, file_id: Option<u32> },
}

fn scoped_query(
    base_query: &'static str,
    latitude_set: &'static str,
    longitude_set: &'static str,
    elevation_missing: &'static str,
    file_given: bool,
    overwrite: bool,
) -> (r: QueryStringBuilder<'static>)
    ensures
        r@ == (QueryView {
            base_query: base_query@,
            where_clauses: scope_clauses(
                latitude_set@,
                longitude_set@,
                elevation_missing@,
                file_given,
                overwrite,
            ),
            order_by: Seq::empty(),
            limit: None,
        }),
{
    let mut query = QueryStringBuilder::new(base_query);
    query.and_where(latitude_set).and_where(longitude_set);
    if !overwrite {
        query.and_where(elevation_missing);
    }
    if file_given {
        query.and_where("file_id = ?");
    }
    assert(query@.where_clauses =~= scope_clauses(
        latitude_set@,
        longitude_set@,
        elevation_missing@,
        file_given,
        overwrite,
    ));
    query
}

/// Plans an enrichment run for one file, or for every row that still lacks
/// elevation if no file is given.
///
/// Overwriting without a file is refused. Otherwise the plan holds the two
/// queries that select the rows: those with a position, without elevation
/// unless `overwrite` is set, and of the given file if there is one.
pub fn plan_elevation_update(file_id: Option<u32>, overwrite: bool) -> (plan: ElevationPlan)
    ensures
        refused(file_id, overwrite) ==> plan == ElevationPlan::Refused,
        !refused(file_id, overwrite) ==> (plan matches ElevationPlan::Run {
            record_query: records,
            lap_query: laps,
            file_id: bound,
        } && records@ == rendered(record_query(file_id is Some, overwrite)) && laps@ == rendered(
            lap_query(file_id is Some, overwrite),
        ) && bound == file_id),
{
    if file_id.is_none() && overwrite {
        return ElevationPlan::Refused;
    }
    let records = scoped_query(
        "select position_lat, position_long, id from record_messages",
        "position_lat is not null",
        "position_long is not null",
        "elevation is null",
        file_id.is_some(),
        overwrite,
    );
    let laps = scoped_query(
        "select start_position_lat, start_position_long, end_position_lat, end_position_long, id from lap_messages",
        "start_position_lat is not null",
        "start_position_long is not null",
        "start_elevation is null",
        file_id.is_some(),
        overwrite,
    );
    ElevationPlan::Run { record_query: records.to_string(), lap_query: laps.to_string(), file_id }
}

/// A record row selected for enrichment: its identifier and its position
/// in semicircles.
#[derive(Clone, Copy, Debug, PartialEq, Eq, Structural)]
pub struct RecordTarget {
    pub id: i32,
    pub latitude: i32,
    pub longitude: i32,
}

/// A lap row selected for enrichment: its identifier and the positions of
/// its start and end in semicircles.
#[derive(Clone, Copy, Debug, PartialEq, Eq, Structural)]
pub struct LapTarget {
    pub id: i32,
    pub start_latitude: i32,
    pub start_longitude: i32,
    pub end_latitude: i32,
    pub end_longitude: i32,
}

/// Whether `location` is the point with these coordinates and no
/// elevation.
pub open spec fn is_bare_point(location: Location, latitude: i32, longitude: i32) -> bool {
    &&& location.spec_latitude_semicircles() == latitude
    &&& location.spec_longitude_semicircles() == longitude
    &&& location.spec_elevation() is None
}

/// The locations of the selected record rows, one per row in row order,
/// none with an elevation yet.
pub fn record_locations(targets: &Vec<RecordTarget>) -> (locations: Vec<Location>)
    ensures
        locations@.len() == targets@.len(),
        forall|i: int|
            0 <= i < targets@.len() ==> is_bare_point(
                #[trigger] locations@[i],
                targets@[i].latitude,
                targets@[i].longitude,
            ),
{
    let mut locations: Vec<Location> = Vec::new();
    let mut i: usize = 0;
    while i < targets.len()
        invariant
            0 <= i <= targets.len(),
            locations@.len() == i,
            forall|k: int|
                0 <= k < i ==> is_bare_point(
                    #[trigger] locations@[k],
                    targets@[k].latitude,
                    targets@[k].longitude,
                ),
        decreases targets.len() - i,
    {
        locations.push(Location::from_fit_coordinates(targets[i].latitude, targets[i].longitude));
        i = i + 1;
    }
    locations
}

/// The start and the end locations of the selected lap rows, one of each
/// per row in row order, none with an elevation yet.
pub fn lap_locations(targets: &Vec<LapTarget>) -> (locations: (Vec<Location>, Vec<Location>))
    ensures
        locations.0@.len() == targets@.len(),
        locations.1@.len() == targets@.len(),
        forall|i: int|
            0 <= i < targets@.len() ==> is_bare_point(
                #[trigger] locations.0@[i],
                targets@[i].start_latitude,
                targets@[i].start_longitude,
            ),
        forall|i: int|
            0 <= i < targets@.len() ==> is_bare_point(
                #[trigger] locations.1@[i],
                targets@[i].end_latitude,
                targets@[i].end_longitude,
            ),
{
    let mut starts: Vec<Location> = Vec::new();
    let mut ends: Vec<Location> = Vec::new();
    let mut i: usize = 0;
    while i < targets.len()
        invariant
            0 <= i <= targets.len(),
            starts@.len() == i,
            ends@.len() == i,
            forall|k: int|
                0 <= k < i ==> is_bare_point(
                    #[trigger] starts@[k],
                    targets@[k].start_latitude,
                    targets@[k].start_longitude,
                ),
            forall|k: int|
                0 <= k < i ==> is_bare_point(
                    #[trigger] ends@[k],
                    targets@[k].end_latitude,
                    targets@[k].end_longitude,
                ),
        decreases targets.len() - i,
    {
        let target = targets[i];
        starts.push(Location::from_fit_coordinates(target.start_latitude, target.start_longitude));
        ends.push(Location::from_fit_coordinates(target.end_latitude, target.end_longitude));
        i = i + 1;
    }
    (starts, ends)
}

/// The elevation to write to one record row. An absent elevation is
/// written as `NULL`: the provider has no data for the place.
#[derive(Clone, Copy, Debug, PartialEq, Eq, Structural)]
pub struct RecordUpdate {
    pub id: i32,
    pub elevation: Option<u32>,
}

/// The elevations to write to one lap row.
#[derive(Clone, Copy, Debug, PartialEq, Eq, Structural)]
pub struct LapUpdate {
    pub id: i32,
    pub start_elevation: Option<u32>,
    pub end_elevation: Option<u32>,
}

/// How many rows of one table an enrichment run gave an elevation, and how
/// many it asked for.
#[derive(Clone, Copy, Debug, PartialEq, Eq, Structural)]
pub struct ElevationCount {
    pub set: usize,
    pub total: usize,
}

/// The number of locations that have an elevation.
pub open spec fn count_known(locations: Seq<Location>) -> nat
    decreases locations.len(),
{
    if locations.len() == 0 {
        0
    } else {
        count_known(locations.drop_last()) + if locations.last().spec_elevation() is Some {
            1nat
        } else {
            0nat
        }
    }
}

/// Counts the locations that came back with an elevation.
pub fn count_elevations(locations: &Vec<Location>) -> (count: ElevationCount)
    ensures
        count.set == count_known(locations@),
        count.total == locations@.len(),
{
    let mut set: usize = 0;
    let mut i: usize = 0;
    assert(locations@.take(0) =~= Seq::<Location>::empty());
    while i < locations.len()
        invariant
            0 <= i <= locations.len(),
            set == count_known(locations@.take(i as int)),
            set <= i,
        decreases locations.len() - i,
    {
        proof {
            let longer = locations@.take(i + 1);
            assert(longer.drop_last() =~= locations@.take(i as int));
            assert(longer.last() == locations@[i as int]);
        }
        if locations[i].elevation().is_some() {
            set = set + 1;
        }
        i = i + 1;
    }
    assert(locations@.take(i as int) =~= locations@);
    ElevationCount { set, total: locations.len() }
}

/// The smaller of two lengths.
pub open spec fn shorter(a: int, b: int) -> int {
    if a <= b {
        a
    } else {
        b
    }
}

/// The statement that writes one `RecordUpdate`: elevation first, then the
/// row identifier.
pub fn record_update_statement() -> (sql: &'static str)
    ensures
        sql@ == "update record_messages set elevation = ? where id = ?"@,
{
    "update record_messages set elevation = ? where id = ?"
}

/// The statement that writes one `LapUpdate`: start elevation, end
/// elevation, then the row identifier.
pub fn lap_update_statement() -> (sql: &'static str)
    ensures
        sql@ == "update lap_messages set start_elevation = ?, end_elevation = ? where id = ?"@,
{
    "update lap_messages set start_elevation = ?, end_elevation = ? where id = ?"
}

/// Turns the provider's answers for the selected record rows into the
/// updates to write back and the count to report.
///
/// Row and location are paired by position, as far as both lists reach.
/// Every paired row gets an update, with the location's elevation or with
/// none. The count is taken over all locations.
pub fn add_record_elevation_data(targets: &Vec<RecordTarget>, locations: &Vec<Location>) -> (r: (
    Vec<RecordUpdate>,
    ElevationCount,
))
    ensures
        r.0@.len() == shorter(targets@.len() as int, locations@.len() as int),
        forall|i: int|
            0 <= i < r.0@.len() ==> #[trigger] r.0@[i] == (RecordUpdate {
                id: targets@[i].id,
                elevation: locations@[i].spec_elevation(),
            }),
        r.1.set == count_known(locations@),
        r.1.total == locations@.len(),
{
    let mut updates: Vec<RecordUpdate> = Vec::new();
    let mut i: usize = 0;
    while i < targets.len() && i < locations.len()
        invariant
            0 <= i <= targets.len(),
            i <= locations.len(),
            updates@.len() == i,
            forall|k: int|
                0 <= k < i ==> #[trigger] updates@[k] == (RecordUpdate {
                    id: targets@[k].id,
                    elevation: locations@[k].spec_elevation(),
                }),
        decreases targets.len() - i,
    {
        updates.push(RecordUpdate { id: targets[i].id, elevation: locations[i].elevation() });
        i = i + 1;
    }
    (updates, count_elevations(locations))
}

/// Turns the provider's answers for the selected lap rows into the updates
/// to write back and the count to report.
///
/// Row, start location and end location are paired by position, as far as
/// all three lists reach. The count is taken over the start locations.
pub fn add_lap_elevation_data(
    targets: &Vec<LapTarget>,
    st_locations: &Vec<Location>,
    en_locations: &Vec<Location>,
) -> (r: (Vec<LapUpdate>, ElevationCount))
    ensures
        r.0@.len() == shorter(
            targets@.len() as int,
            shorter(st_locations@.len() as int, en_locations@.len() as int),
        ),
        forall|i: int|
            0 <= i < r.0@.len() ==> #[trigger] r.0@[i] == (LapUpdate {
                id: targets@[i].id,
                start_elevation: st_locations@[i].spec_elevation(),
                end_elevation: en_locations@[i].spec_elevation(),
            }),
        r.1.set == count_known(st_locations@),
        r.1.total == st_locations@.len(),
{
    let mut updates: Vec<LapUpdate> = Vec::new();
    let mut i: usize = 0;
    while i < targets.len() && i < st_locations.len() && i < en_locations.len()
        invariant
            0 <= i <= targets.len(),
            i <= st_locations.len(),
            i <= en_locations.len(),
            updates@.len() == i,
            forall|k: int|
                0 <= k < i ==> #[trigger] updates@[k] == (LapUpdate {
                    id: targets@[k].id,
                    start_elevation: st_locations@[k].spec_elevation(),
                    end_elevation: en_locations@[k].spec_elevation(),
                }),
        decreases targets.len() - i,
    {
        updates.push(
            LapUpdate {
                id: targets[i].id,
                start_elevation: st_locations[i].elevation(),
                end_elevation: en_locations[i].elevation(),
            },
        );
        i = i + 1;
    }
    (updates, count_elevations(st_locations))
}

/// The bounds of batch number `k` when `total` items are cut into batches
/// of `batch_size`: it starts where the batch before it ends and is
/// full unless the items run out.
pub open spec fn batch_bounds(total: int, batch_size: int, k: int) -> (int, int) {
    (k * batch_size, shorter((k + 1) * batch_size, total))
}

/// The number of batches: `total / batch_size`, rounded up.
pub open spec fn batch_count(total: int, batch_size: int) -> int {
    (total + batch_size - 1) / batch_size
}

proof fn lemma_batch_count(total: int, batch_size: int, k: int)
    requires
        batch_size > 0,
        0 <= k,
        total >= 0,
    ensures
        (k + 1) * batch_size == k * batch_size + batch_size,
        k * batch_size < total ==> k < batch_count(total, batch_size),
        k * batch_size >= total ==> k >= batch_count(total, batch_size),
{
    assert((k + 1) * batch_size == k * batch_size + batch_size) by (nonlinear_arith);
    let n = batch_count(total, batch_size);
    vstd::arithmetic::div_mod::lemma_fundamental_div_mod(total + batch_size - 1, batch_size);
    vstd::arithmetic::div_mod::lemma_mod_bound(total + batch_size - 1, batch_size);
    assert(batch_size * n == n * batch_size) by (nonlinear_arith);
    assert(n * batch_size <= total + batch_size - 1 < n * batch_size + batch_size);
    if k * batch_size < total {
        assert(k < n) by (nonlinear_arith)
            requires
                k * batch_size < total,
                total + batch_size - 1 < n * batch_size + batch_size,
                batch_size > 0,
        ;
    }
    if k * batch_size >= total {
        assert(k >= n) by (nonlinear_arith)
            requires
                k * batch_size >= total,
                n * batch_size <= total + batch_size - 1,
                batch_size > 0,
        ;
    }
}

/// Cuts `total` items into consecutive batches of at most `batch_size` and
/// returns the bounds of each, start inclusive and end exclusive. All
/// batches are full but possibly the last, and none is empty.
pub fn batch_ranges(total: usize, batch_size: usize) -> (ranges: Vec<(usize, usize)>)
    requires
        batch_size > 0,
    ensures
        ranges@.len() == batch_count(total as int, batch_size as int),
        forall|k: int|
            0 <= k < ranges@.len() ==> (#[trigger] ranges@[k]).0 == batch_bounds(
                total as int,
                batch_size as int,
                k,
            ).0 && ranges@[k].1 == batch_bounds(total as int, batch_size as int, k).1
                && ranges@[k].0 < ranges@[k].1 <= total,
{
    let mut ranges: Vec<(usize, usize)> = Vec::new();
    let mut start: usize = 0;
    assert(0 * (batch_size as int) == 0) by (nonlinear_arith);
    while start < total
        invariant
            batch_size > 0,
            0 <= start <= total,
            start == shorter(ranges@.len() * batch_size, total as int),
            ranges@.len() == 0 || (ranges@.len() - 1) * batch_size < total,
            forall|k: int|
                0 <= k < ranges@.len() ==> (#[trigger] ranges@[k]).0 == batch_bounds(
                    total as int,
                    batch_size as int,
                    k,
                ).0 && ranges@[k].1 == batch_bounds(total as int, batch_size as int, k).1
                    && ranges@[k].0 < ranges@[k].1 <= total,
        decreases total - start,
    {
        let end: usize = if total - start > batch_size {
            start + batch_size
        } else {
            total
        };
        proof {
            lemma_batch_count(total as int, batch_size as int, ranges@.len() as int);
        }
        ranges.push((start, end));
        start = end;
    }
    proof {
        let k = ranges@.len() as int;
        lemma_batch_count(total as int, batch_size as int, k);
        if k > 0 {
            lemma_batch_count(total as int, batch_size as int, k - 1);
        }
    }
    ranges
}

/// Whether a single precision number, given by its bit pattern, is the
/// marker that a provider sends in place of an elevation it does not have:
/// a number whose whole part is -32768, that is any number from -32768
/// down to, but not including, -32769.
pub open spec fn is_no_data(bits: u32) -> bool {
    0xC700_0000 <= bits <= 0xC700_00FF
}

/// What a provider's answer says. A missing value and the marker for "no
/// data" both mean that the elevation is absent, whichever provider sent
/// them; any other number is the elevation.
pub fn elevation_answer(reading: Option<u32>) -> (elevation: Option<u32>)
    ensures
        elevation == match reading {
            Some(bits) => if is_no_data(bits) {
                None
            } else {
                Some(bits)
            },
            None => None,
        },
{
    match reading {
        Some(bits) => if 0xC700_0000 <= bits && bits <= 0xC700_00FF {
            None
        } else {
            Some(bits)
        },
        None => None,
    }
}

/// Writes the provider's answers for one batch into the locations.
///
/// The batch covers `start..end`, as far as there are locations. Answer
/// and location are paired by position, as far as both reach: location
/// `start + k` takes answer `k`. Every other location, and every
/// coordinate, stays as it was.
pub fn assign_elevations(
    locations: &mut Vec<Location>,
    start: usize,
    end: usize,
    elevations: &Vec<Option<u32>>,
)
    ensures
        final(locations)@.len() == old(locations)@.len(),
        forall|i: int|
            0 <= i < old(locations)@.len() ==> {
                &&& (#[trigger] final(locations)@[i]).spec_latitude_semicircles() == old(
                    locations,
                )@[i].spec_latitude_semicircles()
                &&& final(locations)@[i].spec_longitude_semicircles() == old(
                    locations,
                )@[i].spec_longitude_semicircles()
                &&& final(locations)@[i].spec_elevation() == if start <= i < end && i - start
                    < elevations@.len() {
                    elevations@[i - start]
                } else {
                    old(locations)@[i].spec_elevation()
                }
            },
{
    let mut k: usize = 0;
    if start >= end || start >= locations.len() {
        return ;
    }
    let stop: usize = if end < locations.len() {
        end
    } else {
        locations.len()
    };
    while k < elevations.len() && k < stop - start
        invariant
            start < stop <= locations@.len(),
            stop == shorter(end as int, locations@.len() as int),
            locations@.len() == old(locations)@.len(),
            0 <= k <= stop - start,
            k <= elevations@.len(),
            forall|i: int|
                0 <= i < old(locations)@.len() ==> {
                    &&& (#[trigger] locations@[i]).spec_latitude_semicircles() == old(
                        locations,
                    )@[i].spec_latitude_semicircles()
                    &&& locations@[i].spec_longitude_semicircles() == old(
                        locations,
                    )@[i].spec_longitude_semicircles()
                    &&& locations@[i].spec_elevation() == if start <= i < start + k {
                        elevations@[i - start]
                    } else {
                        old(locations)@[i].spec_elevation()
                    }
                },
        decreases elevations.len() - k,
    {
        let mut location = locations[start + k];
        location.set_elevation(elevations[k]);
        locations.set(start + k, location);
        k = k + 1;
    }
}

/// A stored row as far as enrichment is concerned: the file it belongs to,
/// its position if it has one, and its elevation if it has one.
pub struct RowView {
    pub file_id: u32,
    pub position: Option<(i32, i32)>,
    pub elevation: Option<u32>,
}

/// Whether the queries of a run select a row: it has a position, it lacks
/// elevation unless elevation is overwritten, and it belongs to the file
/// if one is given.
pub open spec fn selected(row: RowView, file_id: Option<u32>, overwrite: bool) -> bool {
    &&& row.position is Some
    &&& overwrite || row.elevation is None
    &&& file_id matches Some(file) ==> row.file_id == file
}

/// Whether a run touches a row.
pub open spec fn touched(row: RowView, file_id: Option<u32>, overwrite: bool) -> bool {
    !refused(file_id, overwrite) && selected(row, file_id, overwrite)
}

/// A row after a run against a provider that answers `service(position)`:
/// a touched row takes the answer, absent or not, and any other row stays
/// as it was.
pub open spec fn enriched_row(
    row: RowView,
    file_id: Option<u32>,
    overwrite: bool,
    service: spec_fn((i32, i32)) -> Option<u32>,
) -> RowView {
    if touched(row, file_id, overwrite) {
        RowView { elevation: service(row.position->Some_0), ..row }
    } else {
        row
    }
}

/// A table after a run.
pub open spec fn enriched(
    rows: Seq<RowView>,
    file_id: Option<u32>,
    overwrite: bool,
    service: spec_fn((i32, i32)) -> Option<u32>,
) -> Seq<RowView> {
    Seq::new(rows.len(), |i: int| enriched_row(rows[i], file_id, overwrite, service))
}

/// The number of rows that a run asks the provider for.
pub open spec fn rows_total(rows: Seq<RowView>, file_id: Option<u32>, overwrite: bool) -> nat
    decreases rows.len(),
{
    if rows.len() == 0 {
        0
    } else {
        rows_total(rows.drop_last(), file_id, overwrite) + if touched(
            rows.last(),
            file_id,
            overwrite,
        ) {
            1nat
        } else {
            0nat
        }
    }
}

/// The number of rows that a run gives an elevation.
pub open spec fn rows_set(
    rows: Seq<RowView>,
    file_id: Option<u32>,
    overwrite: bool,
    service: spec_fn((i32, i32)) -> Option<u32>,
) -> nat
    decreases rows.len(),
{
    if rows.len() == 0 {
        0
    } else {
        rows_set(rows.drop_last(), file_id, overwrite, service) + if touched(
            rows.last(),
            file_id,
            overwrite,
        ) && service(rows.last().position->Some_0) is Some {
            1nat
        } else {
            0nat
        }
    }
}

/// Overwriting without a file is a no-op: the run touches no row and both
/// of its counts are zero.
pub proof fn lemma_unscoped_overwrite_is_noop(
    rows: Seq<RowView>,
    service: spec_fn((i32, i32)) -> Option<u32>,
)
    ensures
        refused(None, true),
        enriched(rows, None, true, service) == rows,
        rows_total(rows, None, true) == 0,
        rows_set(rows, None, true, service) == 0,
    decreases rows.len(),
{
    assert(enriched(rows, None, true, service) =~= rows);
    if rows.len() > 0 {
        lemma_unscoped_overwrite_is_noop(rows.drop_last(), service);
    }
}

/// Filling in missing elevation is idempotent. After one run without
/// overwrite, a second run against a provider that answers the same for
/// the same place changes no row and gives no row an elevation: what it
/// could fill the first run has filled.
pub proof fn lemma_fill_is_idempotent(
    rows: Seq<RowView>,
    file_id: Option<u32>,
    service: spec_fn((i32, i32)) -> Option<u32>,
)
    ensures
        enriched(enriched(rows, file_id, false, service), file_id, false, service) == enriched(
            rows,
            file_id,
            false,
            service,
        ),
        rows_set(enriched(rows, file_id, false, service), file_id, false, service) == 0,
    decreases rows.len(),
{
    let once = enriched(rows, file_id, false, service);
    assert(enriched(once, file_id, false, service) =~= once);
    if rows.len() > 0 {
        lemma_fill_is_idempotent(rows.drop_last(), file_id, service);
        assert(once.drop_last() =~= enriched(rows.drop_last(), file_id, false, service));
    }
}

/// The rows that a run selects, in stored order.
pub open spec fn selection(rows: Seq<RowView>, file_id: Option<u32>, overwrite: bool) -> Seq<
    RowView,
>
    decreases rows.len(),
{
    if rows.len() == 0 {
        Seq::empty()
    } else if touched(rows.last(), file_id, overwrite) {
        selection(rows.drop_last(), file_id, overwrite).push(rows.last())
    } else {
        selection(rows.drop_last(), file_id, overwrite)
    }
}

/// Whether the locations are those of the selected rows after the provider
/// has answered: one per row, in order, at the row's position and with the
/// provider's answer for that position as elevation.
pub open spec fn answered(
    locations: Seq<Location>,
    selected: Seq<RowView>,
    service: spec_fn((i32, i32)) -> Option<u32>,
) -> bool {
    &&& locations.len() == selected.len()
    &&& forall|i: int|
        0 <= i < selected.len() ==> {
            &&& (#[trigger] locations[i]).spec_latitude_semicircles()
                == selected[i].position->Some_0.0
            &&& locations[i].spec_longitude_semicircles() == selected[i].position->Some_0.1
            &&& locations[i].spec_elevation() == service(selected[i].position->Some_0)
        }
}

/// The counts that a run reports are the counts of the rows it touched:
/// counted over the answered locations of the selected rows, the number of
/// known elevations is the number of rows that the run gave an elevation,
/// and the number of locations is the number of rows it asked for.
pub proof fn lemma_counts_are_row_counts(
    rows: Seq<RowView>,
    file_id: Option<u32>,
    overwrite: bool,
    service: spec_fn((i32, i32)) -> Option<u32>,
    locations: Seq<Location>,
)
    requires
        answered(locations, selection(rows, file_id, overwrite), service),
    ensures
        locations.len() == rows_total(rows, file_id, overwrite),
        count_known(locations) == rows_set(rows, file_id, overwrite, service),
    decreases rows.len(),
{
    if rows.len() > 0 {
        let before = selection(rows.drop_last(), file_id, overwrite);
        if touched(rows.last(), file_id, overwrite) {
            let shorter_list = locations.drop_last();
            assert(selection(rows, file_id, overwrite) == before.push(rows.last()));
            assert(answered(shorter_list, before, service)) by {
                assert forall|i: int| 0 <= i < before.len() implies {
                    &&& (#[trigger] shorter_list[i]).spec_latitude_semicircles()
                        == before[i].position->Some_0.0
                    &&& shorter_list[i].spec_longitude_semicircles()
                        == before[i].position->Some_0.1
                    &&& shorter_list[i].spec_elevation() == service(before[i].position->Some_0)
                } by {
                    assert(shorter_list[i] == locations[i]);
                    assert(before[i] == selection(rows, file_id, overwrite)[i]);
                }
            }
            lemma_counts_are_row_counts(
                rows.drop_last(),
                file_id,
                overwrite,
                service,
                shorter_list,
            );
            assert(locations.last() == locations[locations.len() - 1]);
            assert(selection(rows, file_id, overwrite)[locations.len() - 1] == rows.last());
        } else {
            lemma_counts_are_row_counts(rows.drop_last(), file_id, overwrite, service, locations);
        }
    }
}

} // verus!
