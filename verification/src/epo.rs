//! Extended Prediction Orbit data for the GPS receiver of a device.
//!
//! The download holds 28 sets of 2307 bytes, one per six hour window for
//! seven days. The first three bytes of each set are filler that devices
//! do not understand. The remaining 2304 bytes are 32 satellite records of
//! 72 bytes: a three byte time stamp at the front, a checksum at the end.

use crate::error::Error;
use crate::text::{decimal, push_decimal};
use vstd::prelude::*;
use vstd::string::*;

verus! {

/// Number of sets in a download.
pub const EPO_SETS: usize = 28;

/// Length of a set as downloaded.
pub const EPO_SET_LENGTH: usize = 2307;

/// Number of filler bytes at the front of a set.
pub const EPO_FILLER: usize = 3;

/// Length of one satellite record.
pub const EPO_RECORD_LENGTH: usize = 72;

/// The download without the filler of each set: byte `i` of the result is
/// byte `i % 2304` behind the filler of set `i / 2304`.
pub open spec fn stripped(data: Seq<u8>) -> Seq<u8> {
    Seq::new((28 * 2304) as nat, |i: int| data[(i / 2304) * 2307 + 3 + i % 2304])
}

/// The message for a download of the wrong length.
pub open spec fn unexpected_length_message(length: nat) -> Seq<char> {
    "EPO data has unexpected length of "@ + decimal(length) + " bytes instead of "@ + decimal(
        64596,
    )
}

/// Removes the three leading bytes of each set of a download.
///
/// A download of any length other than 28 times 2307 bytes is refused and
/// the message names the length found.
pub fn strip_leading_bytes(data: Vec<u8>) -> (r: Result<Vec<u8>, Error>)
    ensures
        data@.len() == 28 * 2307 ==> (r matches Ok(fixed) && fixed@ == stripped(data@)),
        data@.len() != 28 * 2307 ==> (r matches Err(Error::Other(message)) && message@
            == unexpected_length_message(data@.len())),
{
    if data.len() != EPO_SETS * EPO_SET_LENGTH {
        let mut message = String::from_str("EPO data has unexpected length of ");
        push_decimal(&mut message, data.len() as u64);
        message.append(" bytes instead of ");
        push_decimal(&mut message, (EPO_SETS * EPO_SET_LENGTH) as u64);
        assert(message@ =~= unexpected_length_message(data@.len()));
        return Err(Error::Other(message));
    }
    let kept: usize = EPO_SET_LENGTH - EPO_FILLER;
    let mut fixed: Vec<u8> = Vec::new();
    let mut set: usize = 0;
    while set < EPO_SETS
        invariant
            0 <= set <= 28,
            kept == 2304,
            data@.len() == 28 * 2307,
            fixed@.len() == set * 2304,
            forall|i: int|
                0 <= i < fixed@.len() ==> #[trigger] fixed@[i] == data@[(i / 2304) * 2307 + 3 + i
                    % 2304],
        decreases 28 - set,
    {
        let mut offset: usize = 0;
        while offset < kept
            invariant
                0 <= set < 28,
                0 <= offset <= 2304,
                kept == 2304,
                data@.len() == 28 * 2307,
                fixed@.len() == set * 2304 + offset,
                forall|i: int|
                    0 <= i < fixed@.len() ==> #[trigger] fixed@[i] == data@[(i / 2304) * 2307 + 3
                        + i % 2304],
            decreases 2304 - offset,
        {
            let ghost position = fixed@.len() as int;
            assert(position / 2304 == set && position % 2304 == offset);
            fixed.push(data[set * EPO_SET_LENGTH + EPO_FILLER + offset]);
            offset = offset + 1;
        }
        set = set + 1;
    }
    assert(fixed@ =~= stripped(data@));
    Ok(fixed)
}

/// All bytes combined with exclusive or.
pub open spec fn xor_all(bytes: Seq<u8>) -> u8
    decreases bytes.len(),
{
    if bytes.len() == 0 {
        0u8
    } else {
        xor_all(bytes.drop_last()) ^ bytes.last()
    }
}

/// Satellite record number `k` of the data.
pub open spec fn satellite(data: Seq<u8>, k: int) -> Seq<u8> {
    data.subrange(72 * k, 72 * k + 72)
}

/// Whether a satellite record carries the right checksum: its last byte is
/// the exclusive or of the 71 bytes before it.
pub open spec fn checksum_holds(record: Seq<u8>) -> bool {
    xor_all(record.take(71)) == record[71]
}

/// The time stamp of a satellite record: its first three bytes, lowest
/// first, as hours since 6 January 1980, 0:00 UTC.
pub open spec fn hours_after(record: Seq<u8>) -> int {
    record[0] as int + 256 * (record[1] as int) + 65536 * (record[2] as int)
}

/// The message for a record with a wrong checksum.
pub open spec fn checksum_message(offset: nat) -> Seq<char> {
    "Checksum error in EPO data at offset "@ + decimal(offset)
}

/// The earliest of `bound` and the time stamps of the first `n` records.
pub open spec fn earliest(data: Seq<u8>, n: nat, bound: int) -> int
    decreases n,
{
    if n == 0 {
        bound
    } else {
        let before = earliest(data, (n - 1) as nat, bound);
        let hours = hours_after(satellite(data, n - 1));
        if hours < before {
            hours
        } else {
            before
        }
    }
}

/// The latest of `bound` and the time stamps of the first `n` records.
pub open spec fn latest(data: Seq<u8>, n: nat, bound: int) -> int
    decreases n,
{
    if n == 0 {
        bound
    } else {
        let before = latest(data, (n - 1) as nat, bound);
        let hours = hours_after(satellite(data, n - 1));
        if hours > before {
            hours
        } else {
            before
        }
    }
}

/// Whether record `k` is the first with a wrong checksum.
pub open spec fn is_first_bad(data: Seq<u8>, k: int) -> bool {
    &&& 0 <= k < data.len() / 72
    &&& !checksum_holds(satellite(data, k))
    &&& forall|j: int| 0 <= j < k ==> checksum_holds(#[trigger] satellite(data, j))
}

/// The number of the first record with a wrong checksum, if there is one.
pub open spec fn first_bad_record(data: Seq<u8>) -> Option<int> {
    if exists|k: int| is_first_bad(data, k) {
        Some(choose|k: int| is_first_bad(data, k))
    } else {
        None
    }
}

/// There is at most one first record with a wrong checksum.
pub proof fn lemma_first_bad_unique(data: Seq<u8>, a: int, b: int)
    requires
        is_first_bad(data, a),
        is_first_bad(data, b),
    ensures
        a == b,
{
    if a < b {
        assert(checksum_holds(satellite(data, a)));
    } else if b < a {
        assert(checksum_holds(satellite(data, b)));
    }
}

/// The period that valid data covers, in hours since 6 January 1980,
/// 0:00 UTC.
#[derive(Clone, Copy, Debug, PartialEq, Eq, Structural)]
pub struct EpoPeriod {
    /// Start of the earliest window, but no later than the hour of the check.
    pub start: i64,
    /// Start of the latest window; the window itself lasts six hours more.
    pub end: i64,
}

/// Verifies the checksum of every satellite record and reports the period
/// that the data covers. `now` is the hour of the check, counted from
/// 6 January 1980, 0:00 UTC.
///
/// Fails at the first record whose checksum is wrong; the message gives
/// the record's offset in bytes.
pub fn validate_epo_data(data: &[u8], now: i64) -> (r: Result<EpoPeriod, Error>)
    requires
        data@.len() % 72 == 0,
    ensures
        match r {
            Ok(period) => {
                &&& first_bad_record(data@) is None
                &&& period.start == earliest(data@, data@.len() / 72, now as int)
                &&& period.end == latest(data@, data@.len() / 72, 0)
            },
            Err(error) => {
                &&& first_bad_record(data@) matches Some(k)
                &&& error matches Error::Other(message)
                &&& message@ == checksum_message((72 * k) as nat)
            },
        },
{
    let count: usize = data.len() / EPO_RECORD_LENGTH;
    let mut start: i64 = now;
    let mut end: i64 = 0;
    let mut k: usize = 0;
    while k < count
        invariant
            0 <= k <= count,
            count == data@.len() / 72,
            count * 72 == data@.len(),
            data@.len() <= usize::MAX,
            data@.len() % 72 == 0,
            forall|j: int| 0 <= j < k ==> checksum_holds(#[trigger] satellite(data@, j)),
            start == earliest(data@, k as nat, now as int),
            end == latest(data@, k as nat, 0),
            0 <= end < 16777216,
            start <= now,
            start >= 0 || start == now,
        decreases count - k,
    {
        assert(k * 72 + 72 <= data@.len());
        let base: usize = k * EPO_RECORD_LENGTH;
        let ghost record = satellite(data@, k as int);
        let mut xor: u8 = 0;
        let mut i: usize = 0;
        assert(record.take(71).take(0) =~= Seq::<u8>::empty());
        while i < 71
            invariant
                0 <= i <= 71,
                base == k * 72,
                base + 72 <= data@.len(),
                data@.len() <= usize::MAX,
                record == satellite(data@, k as int),
                xor == xor_all(record.take(71).take(i as int)),
            decreases 71 - i,
        {
            proof {
                let longer = record.take(71).take(i + 1);
                assert(longer.drop_last() =~= record.take(71).take(i as int));
                assert(longer.last() == data@[base + i]);
            }
            xor = xor ^ data[base + i];
            i = i + 1;
        }
        assert(record.take(71).take(71) =~= record.take(71));
        assert(record[71] == data@[base + 71]);
        if xor != data[base + 71] {
            let mut message = String::from_str("Checksum error in EPO data at offset ");
            push_decimal(&mut message, base as u64);
            assert(message@ =~= checksum_message((72 * k) as nat));
            proof {
                assert(is_first_bad(data@, k as int));
                lemma_first_bad_unique(data@, k as int, first_bad_record(data@)->Some_0);
            }
            return Err(Error::Other(message));
        }
        assert(record[0] == data@[base as int] && record[1] == data@[base + 1] && record[2]
            == data@[base + 2]);
        let hours: i64 = data[base] as i64 + 256 * (data[base + 1] as i64) + 65536 * (data[base
            + 2] as i64);
        if hours < start {
            start = hours;
        }
        if hours > end {
            end = hours;
        }
        k = k + 1;
    }
    proof {
        if exists|bad: int| is_first_bad(data@, bad) {
            let bad = choose|bad: int| is_first_bad(data@, bad);
            assert(checksum_holds(satellite(data@, bad)));
        }
    }
    Ok(EpoPeriod { start, end })
}

/// How the time stamp of a record relates to the hour of the check.
#[derive(Clone, Copy, Debug, PartialEq, Eq, Structural)]
pub enum EpoAge {
    /// More than a day old.
    TooOld,
    /// As it should be.
    Current,
    /// More than eight days ahead.
    TooFarAhead,
}

/// Judges a time stamp against the hour of the check, both in hours since
/// 6 January 1980, 0:00 UTC: too far ahead beyond eight days from now, too
/// old before one day ago.
pub fn epo_age(hours: i64, now: i64) -> (age: EpoAge)
    ensures
        age == if hours > now + 8 * 24 {
            EpoAge::TooFarAhead
        } else if hours < now - 24 {
            EpoAge::TooOld
        } else {
            EpoAge::Current
        },
{
    let hours: i128 = hours as i128;
    let now: i128 = now as i128;
    if hours > now + 8 * 24 {
        EpoAge::TooFarAhead
    } else if hours < now - 24 {
        EpoAge::TooOld
    } else {
        EpoAge::Current
    }
}

} // verus!
