//! The threshold table: from a temperature to an 8-bit fan control value.

use crate::config::FanConfig;
use vstd::prelude::*;

verus! {

/// The control value for a percentage: `percent * 2.55` rounded to the
/// nearest integer, a tie going up. Anything from 100 percent on is full
/// speed.
pub open spec fn scaled(percent: int) -> int {
    if percent >= 100 {
        255
    } else {
        (percent * 255 + 50) / 100
    }
}

/// `i` is the first interval of `ranges` that contains `temp`.
pub open spec fn is_first_match(ranges: Seq<FanConfig>, temp: u8, i: int) -> bool {
    &&& 0 <= i < ranges.len()
    &&& ranges[i].contains(temp)
    &&& forall|j: int| 0 <= j < i ==> !(#[trigger] ranges[j]).contains(temp)
}

/// No interval of `ranges` contains `temp`.
pub open spec fn no_match(ranges: Seq<FanConfig>, temp: u8) -> bool {
    forall|i: int| 0 <= i < ranges.len() ==> !(#[trigger] ranges[i]).contains(temp)
}

/// The control value that the table gives for `temp`: that of the first
/// interval containing it, or nothing where `temp` falls outside them all.
pub open spec fn speed_of(ranges: Seq<FanConfig>, temp: u8) -> Option<u8> {
    if exists|i: int| is_first_match(ranges, temp, i) {
        let i = choose|i: int| is_first_match(ranges, temp, i);
        Some(scaled(ranges[i].max_fan_speed as int) as u8)
    } else {
        None
    }
}

/// Converts a percentage into the 8-bit control value.
pub fn scale_speed(percent: u8) -> (value: u8)
    ensures
        value == scaled(percent as int),
{
    if percent >= 100 {
        255
    } else {
        let wide: u32 = (percent as u32 * 255 + 50) / 100;
        wide as u8
    }
}

/// Looks `temp` up in the table, trying the intervals in declaration order.
pub fn speed_for(ranges: &Vec<FanConfig>, temp: u8) -> (speed: Option<u8>)
    ensures
        speed == speed_of(ranges@, temp),
        speed is None <==> no_match(ranges@, temp),
        speed is Some ==> exists|i: int|
            is_first_match(ranges@, temp, i) && speed == Some(
                scaled(ranges@[i].max_fan_speed as int) as u8,
            ),
{
    let mut i: usize = 0;
    while i < ranges.len()
        invariant
            i <= ranges@.len(),
            forall|j: int| 0 <= j < i ==> !(#[trigger] ranges@[j]).contains(temp),
        decreases ranges@.len() - i,
    {
        if ranges[i].covers(temp) {
            proof {
                lemma_first_match_decides(ranges@, temp, i as int);
            }
            return Some(scale_speed(ranges[i].max_fan_speed));
        }
        i += 1;
    }
    proof {
        lemma_no_match_decides(ranges@, temp);
    }
    None
}

/// Two first matches are the same interval.
pub proof fn lemma_first_match_unique(ranges: Seq<FanConfig>, temp: u8, i: int, k: int)
    requires
        is_first_match(ranges, temp, i),
        is_first_match(ranges, temp, k),
    ensures
        i == k,
{
    if i < k {
        assert(!ranges[i].contains(temp));
    }
    if k < i {
        assert(!ranges[k].contains(temp));
    }
}

/// Where some interval contains the temperature, the table answers with the
/// scaled ceiling of the first such interval in declaration order, however
/// many later intervals contain it too.
pub proof fn lemma_first_match_decides(ranges: Seq<FanConfig>, temp: u8, i: int)
    requires
        is_first_match(ranges, temp, i),
    ensures
        speed_of(ranges, temp) == Some(scaled(ranges[i].max_fan_speed as int) as u8),
        !no_match(ranges, temp),
{
    let k = choose|k: int| is_first_match(ranges, temp, k);
    lemma_first_match_unique(ranges, temp, i, k);
}

/// Where no interval contains the temperature, the table has no answer.
pub proof fn lemma_no_match_decides(ranges: Seq<FanConfig>, temp: u8)
    requires
        no_match(ranges, temp),
    ensures
        speed_of(ranges, temp) is None,
{
    if exists|i: int| is_first_match(ranges, temp, i) {
        let i = choose|i: int| is_first_match(ranges, temp, i);
        assert(ranges[i].contains(temp));
    }
}

/// Where any interval at all contains the temperature, one of them is the
/// first, so the table has an answer.
pub proof fn lemma_some_match_has_first(ranges: Seq<FanConfig>, temp: u8, i: int) -> (first: int)
    requires
        0 <= i < ranges.len(),
        ranges[i].contains(temp),
    ensures
        is_first_match(ranges, temp, first),
        first <= i,
        speed_of(ranges, temp) == Some(scaled(ranges[first].max_fan_speed as int) as u8),
    decreases i,
{
    if exists|j: int| 0 <= j < i && ranges[j].contains(temp) {
        let j = choose|j: int| 0 <= j < i && ranges[j].contains(temp);
        lemma_some_match_has_first(ranges, temp, j)
    } else {
        lemma_first_match_decides(ranges, temp, i);
        i
    }
}

/// Scaling is exact at both ends, stays within a byte, and is the integer
/// nearest to `percent * 2.55`, a tie going to the larger one.
pub proof fn lemma_scaled_is_nearest(percent: int)
    requires
        0 <= percent <= 100,
    ensures
        scaled(0) == 0,
        scaled(100) == 255,
        0 <= scaled(percent) <= 255,
        -50 < 100 * scaled(percent) - 255 * percent <= 50,
{
}

/// A larger percentage never gives a smaller control value.
pub proof fn lemma_scaled_monotonic(low: int, high: int)
    requires
        0 <= low <= high,
    ensures
        scaled(low) <= scaled(high),
{
}

} // verus!
