//! Geographic points and the polyline codec used when talking to map and
//! elevation providers.
//!
//! Devices report angles in semicircles: a signed 32 bit integer in which
//! 2^31 stands for 180 degrees. The library never leaves integer arithmetic:
//! degrees are handed out in fixed point with five decimal digits, which is
//! the precision of the polyline format.

use vstd::prelude::*;
use vstd::string::*;

verus! {

/// Number of semicircles in 180 degrees.
pub const SEMICIRCLES_PER_HALF_TURN: i64 = 0x8000_0000;

/// 180 degrees in units of 10^-5 degree.
pub const HALF_TURN_E5: i64 = 18_000_000;

/// `n / d` rounded to the nearest integer, halves away from zero (`d > 0`).
pub open spec fn round_div(n: int, d: int) -> int {
    if n >= 0 {
        (2 * n + d) / (2 * d)
    } else {
        -((d - 2 * n) / (2 * d))
    }
}

/// Degrees in units of 10^-5 degree for an angle given in semicircles:
/// `semicircles * 180 / 2^31`, scaled by 10^5 and rounded to nearest.
pub open spec fn degrees_e5(semicircles: int) -> int {
    round_div(semicircles * 18_000_000, 0x8000_0000)
}

/// Converts an angle in semicircles to units of 10^-5 degree.
pub fn semicircles_to_e5(semicircles: i32) -> (r: i32)
    ensures
        r == degrees_e5(semicircles as int),
        -18_000_000 <= r <= 18_000_000,
{
    let n: i64 = (semicircles as i64) * HALF_TURN_E5;
    let d: i64 = SEMICIRCLES_PER_HALF_TURN;
    if n >= 0 {
        let q: i64 = (2 * n + d) / (2 * d);
        q as i32
    } else {
        let q: i64 = (d - 2 * n) / (2 * d);
        (-q) as i32
    }
}

/// A single geospatial point, with the elevation once it is known.
///
/// Latitude and longitude are kept in semicircles, exactly as the device
/// recorded them. The elevation is carried as the provider reported it: the
/// bit pattern of a single precision number of metres, which the library
/// stores and hands back but never interprets.
#[derive(Clone, Copy, Debug, PartialEq, Eq, Structural)]
pub struct Location {
    latitude: i32,
    longitude: i32,
    elevation: Option<u32>,
}

impl Location {
    /// Latitude in semicircles.
    pub closed spec fn spec_latitude_semicircles(&self) -> i32 {
        self.latitude
    }

    /// Longitude in semicircles.
    pub closed spec fn spec_longitude_semicircles(&self) -> i32 {
        self.longitude
    }

    /// Elevation, if known.
    pub closed spec fn spec_elevation(&self) -> Option<u32> {
        self.elevation
    }

    /// Latitude in units of 10^-5 degree.
    pub open spec fn spec_latitude(&self) -> int {
        degrees_e5(self.spec_latitude_semicircles() as int)
    }

    /// Longitude in units of 10^-5 degree.
    pub open spec fn spec_longitude(&self) -> int {
        degrees_e5(self.spec_longitude_semicircles() as int)
    }

    /// Creates a location without elevation from coordinates in semicircles.
    pub fn from_fit_coordinates(latitude: i32, longitude: i32) -> (r: Self)
        ensures
            r.spec_latitude_semicircles() == latitude,
            r.spec_longitude_semicircles() == longitude,
            r.spec_elevation() is None,
    {
        Location { latitude, longitude, elevation: None }
    }

    /// Latitude in semicircles, as recorded.
    #[verifier::when_used_as_spec(spec_latitude_semicircles)]
    pub fn latitude_semicircles(&self) -> (r: i32)
        ensures
            r == self.spec_latitude_semicircles(),
    {
        self.latitude
    }

    /// Longitude in semicircles, as recorded.
    #[verifier::when_used_as_spec(spec_longitude_semicircles)]
    pub fn longitude_semicircles(&self) -> (r: i32)
        ensures
            r == self.spec_longitude_semicircles(),
    {
        self.longitude
    }

    /// Latitude in degrees, in units of 10^-5 degree.
    pub fn latitude(&self) -> (r: i32)
        ensures
            r == self.spec_latitude(),
            -18_000_000 <= r <= 18_000_000,
    {
        semicircles_to_e5(self.latitude)
    }

    /// Longitude in degrees, in units of 10^-5 degree.
    pub fn longitude(&self) -> (r: i32)
        ensures
            r == self.spec_longitude(),
            -18_000_000 <= r <= 18_000_000,
    {
        semicircles_to_e5(self.longitude)
    }

    /// Elevation in metres, if defined.
    pub fn elevation(&self) -> (r: Option<u32>)
        ensures
            r == self.spec_elevation(),
    {
        self.elevation
    }

    /// Replaces the elevation and leaves the coordinates alone.
    pub fn set_elevation(&mut self, elevation: Option<u32>)
        ensures
            final(self).spec_elevation() == elevation,
            final(self).spec_latitude_semicircles() == old(self).spec_latitude_semicircles(),
            final(self).spec_longitude_semicircles() == old(self).spec_longitude_semicircles(),
    {
        self.elevation = elevation;
    }
}


/// Zig-zag transform of a signed delta: shift left by one and, for a
/// negative delta, invert all bits. The result is never negative.
pub open spec fn zigzag(delta: int) -> nat {
    if delta < 0 {
        (-2 * delta - 1) as nat
    } else {
        (2 * delta) as nat
    }
}

/// The printable character for one chunk value (`0 <= value < 64`): the
/// value offset by 63.
pub open spec fn chunk_char(value: int) -> char {
    ((value + 63) as u8) as char
}

/// Base-32 chunks of `value`, lowest five bits first. Every chunk but the
/// last carries the continuation flag `0x20`.
pub open spec fn chunks(value: nat) -> Seq<char>
    decreases value,
{
    if value < 32 {
        seq![chunk_char(value as int)]
    } else {
        seq![chunk_char(32 + (value % 32) as int)] + chunks(value / 32)
    }
}

/// Whether a delta can be encoded: its zig-zag form has to fit the signed
/// 32 bit accumulator.
pub open spec fn encodable(delta: int) -> bool {
    -0x4000_0000 <= delta < 0x4000_0000
}

/// The encoded form of one delta.
pub open spec fn encoded_delta(delta: int) -> Seq<char> {
    chunks(zigzag(delta))
}

/// Message of the one failure the codec knows.
pub open spec fn encoding_failure() -> Seq<char> {
    "Couldn't convert character"@
}

proof fn lemma_low_bits(v: u32)
    ensures
        v & 0x1f == v % 32,
        v >> 5 == v / 32,
        (0x20 | (v & 0x1f)) == 32 + v % 32,
{
    assert(v & 0x1f == v % 32) by (bit_vector);
    assert(v >> 5 == v / 32) by (bit_vector);
    assert((0x20 | (v & 0x1f)) == 32 + v % 32) by (bit_vector);
}

/// Encodes a single latitude or longitude value, given the previous one,
/// into the polyline format.
///
/// Fails exactly when the difference of the two values is not `encodable`.
pub fn encode(current: i32, previous: i32) -> (r: Result<String, String>)
    ensures
        encodable(current - previous) ==> r is Ok && r->Ok_0@ == encoded_delta(current - previous),
        !encodable(current - previous) ==> r is Err && r->Err_0@ == encoding_failure(),
{
    let delta: i64 = current as i64 - previous as i64;
    if delta < -0x4000_0000 || delta >= 0x4000_0000 {
        return Err(String::from_str("Couldn't convert character"));
    }
    let twice: i64 = 2 * delta;
    let shifted: i64 = if delta < 0 {
        -twice - 1
    } else {
        twice
    };
    let mut coordinate: u32 = shifted as u32;
    let mut output = String::new();
    while coordinate >= 0x20
        invariant
            output@ + chunks(coordinate as nat) == encoded_delta(current - previous),
        decreases coordinate,
    {
        proof {
            lemma_low_bits(coordinate);
        }
        let low: u32 = 0x20 | (coordinate & 0x1f);
        let code: u8 = (low + 63) as u8;
        output.push(code as char);
        assert(seq![chunk_char(32 + (coordinate % 32) as int)] + chunks((coordinate / 32) as nat)
            == chunks(coordinate as nat));
        coordinate = coordinate >> 5;
        assert(output@ + chunks(coordinate as nat) =~= encoded_delta(current - previous));
    }
    let code: u8 = (coordinate + 63) as u8;
    output.push(code as char);
    Ok(output)
}

/// Whether every delta of the point sequence, starting from `previous`, can
/// be encoded.
pub open spec fn all_encodable(points: Seq<(i32, i32)>, previous: (i32, i32)) -> bool
    decreases points.len(),
{
    points.len() == 0 || (encodable(points[0].0 - previous.0) && encodable(
        points[0].1 - previous.1,
    ) && all_encodable(points.drop_first(), points[0]))
}

/// The polyline of a point sequence: for each point in order the encoded
/// latitude delta and then the encoded longitude delta, each taken from
/// the point before it (`previous` for the first).
pub open spec fn polyline(points: Seq<(i32, i32)>, previous: (i32, i32)) -> Seq<char>
    decreases points.len(),
{
    if points.len() == 0 {
        Seq::empty()
    } else {
        encoded_delta(points[0].0 - previous.0) + encoded_delta(points[0].1 - previous.1)
            + polyline(points.drop_first(), points[0])
    }
}

/// The coordinates of the locations in units of 10^-5 degree, latitude first.
pub open spec fn scaled_points(coordinates: Seq<Location>) -> Seq<(i32, i32)> {
    Seq::new(
        coordinates.len(),
        |i: int| (coordinates[i].spec_latitude() as i32, coordinates[i].spec_longitude() as i32),
    )
}

/// Points whose coordinates are degrees scaled by 10^5 always encode: no
/// delta between two of them leaves the encodable range.
pub proof fn lemma_scaled_points_encodable(points: Seq<(i32, i32)>, previous: (i32, i32))
    requires
        -18_000_000 <= previous.0 <= 18_000_000,
        -18_000_000 <= previous.1 <= 18_000_000,
        forall|i: int|
            0 <= i < points.len() ==> -18_000_000 <= (#[trigger] points[i]).0 <= 18_000_000
                && -18_000_000 <= points[i].1 <= 18_000_000,
    ensures
        all_encodable(points, previous),
    decreases points.len(),
{
    if points.len() > 0 {
        let rest = points.drop_first();
        assert forall|i: int| 0 <= i < rest.len() implies -18_000_000 <= (#[trigger] rest[i]).0
            <= 18_000_000 && -18_000_000 <= rest[i].1 <= 18_000_000 by {
            assert(rest[i] == points[i + 1]);
        }
        lemma_scaled_points_encodable(rest, points[0]);
    }
}

/// Encodes points given in units of 10^-5 degree, latitude first, into the
/// polyline format. The first point is encoded as its delta from the origin.
///
/// Fails exactly when one of the deltas is not `encodable`.
pub fn encode_points(points: &[(i32, i32)]) -> (r: Result<String, String>)
    ensures
        all_encodable(points@, (0i32, 0i32)) ==> r is Ok && r->Ok_0@ == polyline(
            points@,
            (0i32, 0i32),
        ),
        !all_encodable(points@, (0i32, 0i32)) ==> r is Err && r->Err_0@ == encoding_failure(),
{
    let mut output = String::new();
    let mut previous: (i32, i32) = (0, 0);
    let mut i: usize = 0;
    assert(points@.skip(0) =~= points@);
    assert(output@ + polyline(points@, (0i32, 0i32)) =~= polyline(points@, (0i32, 0i32)));
    while i < points.len()
        invariant
            0 <= i <= points.len(),
            all_encodable(points@, (0i32, 0i32)) == all_encodable(points@.skip(i as int), previous),
            output@ + polyline(points@.skip(i as int), previous) == polyline(
                points@,
                (0i32, 0i32),
            ),
        decreases points.len() - i,
    {
        let point = points[i];
        proof {
            let rest = points@.skip(i as int);
            assert(rest[0] == point);
            assert(rest.drop_first() =~= points@.skip(i + 1));
        }
        let latitude = match encode(point.0, previous.0) {
            Ok(text) => text,
            Err(failure) => {
                return Err(failure);
            },
        };
        let longitude = match encode(point.1, previous.1) {
            Ok(text) => text,
            Err(failure) => {
                return Err(failure);
            },
        };
        let ghost before = output@;
        output.append(latitude.as_str());
        output.append(longitude.as_str());
        assert(output@ + polyline(points@.skip(i + 1), point) =~= before + polyline(
            points@.skip(i as int),
            previous,
        ));
        previous = point;
        i = i + 1;
    }
    assert(points@.skip(i as int).len() == 0);
    assert(output@ + Seq::<char>::empty() =~= output@);
    Ok(output)
}

/// Encodes a slice of coordinates into the polyline format at five decimal
/// digits. Coordinates in degrees never leave the encodable range, so this
/// always succeeds.
pub fn encode_coordinates(coordinates: &[Location]) -> (r: Result<String, String>)
    ensures
        r is Ok,
        r->Ok_0@ == polyline(scaled_points(coordinates@), (0i32, 0i32)),
{
    let mut points: Vec<(i32, i32)> = Vec::new();
    let mut i: usize = 0;
    while i < coordinates.len()
        invariant
            0 <= i <= coordinates.len(),
            points@ =~= scaled_points(coordinates@).take(i as int),
            forall|k: int|
                0 <= k < points@.len() ==> -18_000_000 <= (#[trigger] points@[k]).0 <= 18_000_000
                    && -18_000_000 <= points@[k].1 <= 18_000_000,
        decreases coordinates.len() - i,
    {
        let latitude = coordinates[i].latitude();
        let longitude = coordinates[i].longitude();
        points.push((latitude, longitude));
        i = i + 1;
    }
    assert(points@ =~= scaled_points(coordinates@));
    proof {
        lemma_scaled_points_encodable(points@, (0i32, 0i32));
    }
    encode_points(points.as_slice())
}

/// The delta that a zig-zag value stands for.
pub open spec fn unzigzag(value: nat) -> int {
    if value % 2 == 0 {
        (value / 2) as int
    } else {
        -((value + 1) / 2) as int
    }
}

/// Reads one value from the front of a polyline: chunks are taken up to
/// and including the first without the continuation flag. Gives the value
/// and what is left of the text, or `None` if the text ends too early.
pub open spec fn read_value(text: Seq<char>) -> Option<(nat, Seq<char>)>
    decreases text.len(),
{
    if text.len() == 0 {
        None
    } else {
        let chunk = text[0] as int - 63;
        if chunk < 32 {
            Some((chunk as nat, text.skip(1)))
        } else {
            match read_value(text.skip(1)) {
                Some((rest, left)) => Some(((chunk - 32 + 32 * rest) as nat, left)),
                None => None,
            }
        }
    }
}

/// Reads `count` points from the front of a polyline, each as a latitude
/// delta and a longitude delta from the point before it.
pub open spec fn read_points(text: Seq<char>, previous: (int, int), count: nat) -> Option<
    Seq<(int, int)>,
>
    decreases count,
{
    if count == 0 {
        if text.len() == 0 {
            Some(Seq::empty())
        } else {
            None
        }
    } else {
        match read_value(text) {
            None => None,
            Some((first, after_first)) => match read_value(after_first) {
                None => None,
                Some((second, left)) => {
                    let point = (previous.0 + unzigzag(first), previous.1 + unzigzag(second));
                    match read_points(left, point, (count - 1) as nat) {
                        Some(points) => Some(seq![point] + points),
                        None => None,
                    }
                },
            },
        }
    }
}

/// The zig-zag transform loses nothing.
pub proof fn lemma_unzigzag(delta: int)
    ensures
        unzigzag(zigzag(delta)) == delta,
{
}

/// Reading gives back the value that was written, and leaves what follows
/// it untouched.
pub proof fn lemma_read_chunks(value: nat, tail: Seq<char>)
    ensures
        read_value(chunks(value) + tail) == Some((value, tail)),
    decreases value,
{
    let text = chunks(value) + tail;
    if value < 32 {
        assert(text[0] == chunk_char(value as int));
        assert(text.skip(1) =~= tail);
    } else {
        let head = chunk_char(32 + (value % 32) as int);
        assert(text[0] == head);
        assert(head as int - 63 == 32 + value % 32);
        assert(text.skip(1) =~= chunks(value / 32) + tail);
        lemma_read_chunks(value / 32, tail);
    }
}

/// The points with their coordinates as mathematical integers.
pub open spec fn as_ints(points: Seq<(i32, i32)>) -> Seq<(int, int)> {
    Seq::new(points.len(), |i: int| (points[i].0 as int, points[i].1 as int))
}

/// A polyline can be read back: reading as many points as were encoded
/// gives exactly those points, in order, and uses up the whole text.
pub proof fn lemma_polyline_round_trip(points: Seq<(i32, i32)>, previous: (i32, i32))
    ensures
        read_points(
            polyline(points, previous),
            (previous.0 as int, previous.1 as int),
            points.len(),
        ) == Some(as_ints(points)),
    decreases points.len(),
{
    let start = (previous.0 as int, previous.1 as int);
    if points.len() == 0 {
        assert(as_ints(points) =~= Seq::empty());
    } else {
        let point = points[0];
        let rest = points.drop_first();
        let latitude = encoded_delta(point.0 - previous.0);
        let longitude = encoded_delta(point.1 - previous.1);
        let tail = polyline(rest, point);
        assert(polyline(points, previous) =~= latitude + (longitude + tail));
        lemma_read_chunks(zigzag(point.0 - previous.0), longitude + tail);
        lemma_read_chunks(zigzag(point.1 - previous.1), tail);
        lemma_unzigzag(point.0 - previous.0);
        lemma_unzigzag(point.1 - previous.1);
        lemma_polyline_round_trip(rest, point);
        assert(as_ints(points) =~= seq![(point.0 as int, point.1 as int)] + as_ints(rest));
    }
}

} // verus!
