//! The request side of the randomness protocol: how a request is named, and
//! how long a delivered value is still honoured.

use vstd::prelude::*;
use crate::win_determination::le_u64;

verus! {

/// A delivered value is honoured only while fewer seconds than this have
/// passed since the request was opened.
pub const VRF_TIMEOUT_SECONDS: i64 = 3600;

/// Whether a request opened at `request_time` has expired at `now`.
pub open spec fn timed_out(request_time: i64, now: i64) -> bool {
    now - request_time >= 3600
}

/// Tests [`timed_out`]; the difference of the two times is taken exactly, so
/// no pair of times is left out.
pub fn is_timed_out(request_time: i64, now: i64) -> (expired: bool)
    ensures
        expired == timed_out(request_time, now),
{
    let elapsed: i128 = now as i128 - request_time as i128;
    elapsed >= VRF_TIMEOUT_SECONDS as i128
}

/// A signed time as the unsigned 64-bit number with the same bits.
pub open spec fn time_bits(time: i64) -> int {
    if time >= 0 {
        time as int
    } else {
        time + 0x1_0000_0000_0000_0000
    }
}

/// Whether `id` names a request opened at `time`: its first eight bytes spell
/// the time, least significant byte first, and its other bytes are zero.
pub open spec fn names_request_at(id: [u8; 32], time: i64) -> bool {
    &&& le_u64(id@) == time_bits(time)
    &&& forall|i: int| 8 <= i < 32 ==> id[i] == 0u8
}

/// The identifier of a request opened at `time`: the one that names it.
pub open spec fn request_id_at(time: i64) -> [u8; 32] {
    choose|id: [u8; 32]| names_request_at(id, time)
}

/// The identifier of a request opened at `time`.
pub fn request_id_for(time: i64) -> (id: [u8; 32])
    ensures
        id == request_id_at(time),
        names_request_at(id, time),
{
    let bits: u64 = if time >= 0 {
        time as u64
    } else {
        ((time + i64::MAX) + 1) as u64 + 0x8000_0000_0000_0000
    };
    let mut id: [u8; 32] = [0u8; 32];
    let r1: u64 = bits / 256;
    let r2: u64 = r1 / 256;
    let r3: u64 = r2 / 256;
    let r4: u64 = r3 / 256;
    let r5: u64 = r4 / 256;
    let r6: u64 = r5 / 256;
    let r7: u64 = r6 / 256;
    id[0] = (bits % 256) as u8;
    id[1] = (r1 % 256) as u8;
    id[2] = (r2 % 256) as u8;
    id[3] = (r3 % 256) as u8;
    id[4] = (r4 % 256) as u8;
    id[5] = (r5 % 256) as u8;
    id[6] = (r6 % 256) as u8;
    id[7] = (r7 % 256) as u8;
    proof {
        // `id` itself witnesses that some identifier names the time.
        assert(names_request_at(id, time));
        lemma_time_has_one_request_id(id, request_id_at(time), time);
    }
    id
}

/// A request identifier names one time only.
pub proof fn lemma_request_id_names_one_time(id: [u8; 32], first: i64, second: i64)
    requires
        names_request_at(id, first),
        names_request_at(id, second),
    ensures
        first == second,
{
}

/// Two numbers below 256 followed by equal multiples of 256 are equal, and so
/// are the multiples.
proof fn lemma_digit_split(low: int, high: int, other_low: int, other_high: int)
    requires
        0 <= low < 256,
        0 <= other_low < 256,
        low + 256 * high == other_low + 256 * other_high,
    ensures
        low == other_low,
        high == other_high,
{
}

/// A time has one request identifier only.
pub proof fn lemma_time_has_one_request_id(first: [u8; 32], second: [u8; 32], time: i64)
    requires
        names_request_at(first, time),
        names_request_at(second, time),
    ensures
        first == second,
{
    let a = first@;
    let b = second@;
    let a7 = a[7] as int;
    let a6 = a[6] + 256 * a7;
    let a5 = a[5] + 256 * a6;
    let a4 = a[4] + 256 * a5;
    let a3 = a[3] + 256 * a4;
    let a2 = a[2] + 256 * a3;
    let a1 = a[1] + 256 * a2;
    let b7 = b[7] as int;
    let b6 = b[6] + 256 * b7;
    let b5 = b[5] + 256 * b6;
    let b4 = b[4] + 256 * b5;
    let b3 = b[3] + 256 * b4;
    let b2 = b[2] + 256 * b3;
    let b1 = b[1] + 256 * b2;
    lemma_digit_split(a[0] as int, a1, b[0] as int, b1);
    lemma_digit_split(a[1] as int, a2, b[1] as int, b2);
    lemma_digit_split(a[2] as int, a3, b[2] as int, b3);
    lemma_digit_split(a[3] as int, a4, b[3] as int, b4);
    lemma_digit_split(a[4] as int, a5, b[4] as int, b5);
    lemma_digit_split(a[5] as int, a6, b[5] as int, b6);
    lemma_digit_split(a[6] as int, a7, b[6] as int, b7);
    assert(first =~= second);
}

} // verus!
