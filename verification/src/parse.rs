//! Parsing the text a form hands in: force and formation values arrive as
//! decimal numerals and must be rejected when they are not numeric or lie
//! outside their documented ranges.

use vstd::prelude::*;
use vstd::string::StrSliceExecFns;

use crate::units::FleetForce;
use crate::units::Formation;
use crate::units::FLEET_FORCE_MAX;
use crate::units::FORMATION_MAX;

verus! {

/// Why a piece of input text was rejected.
#[derive(Clone, Copy, Debug, PartialEq, Eq, Structural)]
pub enum ParseError {
    /// The text is empty or holds a character that is no decimal digit.
    NotNumeric,
    /// The text is a number, but outside the documented range.
    OutOfRange,
}

/// Whether `c` is a decimal digit.
pub open spec fn spec_is_digit(c: char) -> bool {
    48 <= c as int <= 57
}

/// The value of the decimal digit `c`.
pub open spec fn spec_digit_value(c: char) -> int {
    c as int - 48
}

/// Whether the text is a plain decimal numeral: nonempty and digits only.
pub open spec fn spec_is_numeral(s: Seq<char>) -> bool {
    s.len() > 0 && forall|i: int| 0 <= i < s.len() ==> spec_is_digit(#[trigger] s[i])
}

/// The number a sequence of decimal digits denotes.
pub open spec fn spec_numeral_value(s: Seq<char>) -> int
    decreases s.len(),
{
    if s.len() == 0 {
        0
    } else {
        spec_numeral_value(s.drop_last()) * 10 + spec_digit_value(s.last())
    }
}

/// Reads a plain decimal numeral, reporting any value above `max` as out
/// of range. The running value is tracked exactly up to `max` and
/// saturated just above it, so arbitrarily many leading zeros cost
/// nothing and cannot overflow.
fn parse_bounded(s: &str, max: u32) -> (r: Result<u32, ParseError>)
    requires
        max <= 1000,
    ensures
        r is Ok <==> spec_is_numeral(s@) && spec_numeral_value(s@) <= max,
        r is Ok ==> r->Ok_0 == spec_numeral_value(s@),
        r == Err::<u32, ParseError>(ParseError::NotNumeric) <==> !spec_is_numeral(s@),
        r == Err::<u32, ParseError>(ParseError::OutOfRange) <==> spec_is_numeral(s@)
            && spec_numeral_value(s@) > max,
{
    let n = s.unicode_len();
    if n == 0 {
        return Err(ParseError::NotNumeric);
    }
    let mut value: u32 = 0;
    let mut i: usize = 0;
    while i < n
        invariant
            n == s@.len(),
            0 < n,
            i <= n,
            max <= 1000,
            forall|j: int| 0 <= j < i ==> spec_is_digit(#[trigger] s@[j]),
            value == (if spec_numeral_value(s@.subrange(0, i as int)) > max {
                max + 1
            } else {
                spec_numeral_value(s@.subrange(0, i as int))
            }),
        decreases n - i,
    {
        let c = s.get_char(i);
        let cu = c as u32;
        if cu < 48 || cu > 57 {
            proof {
                assert(!spec_is_digit(s@[i as int]));
            }
            return Err(ParseError::NotNumeric);
        }
        let d: u32 = cu - 48;
        proof {
            assert(s@.subrange(0, i as int + 1).drop_last() =~= s@.subrange(0, i as int));
            assert(s@.subrange(0, i as int + 1).last() == s@[i as int]);
        }
        let mut next: u32 = value * 10 + d;
        if next > max {
            next = max + 1;
        }
        value = next;
        i += 1;
    }
    proof {
        assert(s@.subrange(0, n as int) =~= s@);
    }
    if value > max {
        Err(ParseError::OutOfRange)
    } else {
        Ok(value)
    }
}

impl FleetForce {
    /// Parses form text into a force value, rejecting text that is not a
    /// plain decimal numeral and numbers above `FLEET_FORCE_MAX`.
    pub fn parse(s: &str) -> (r: Result<FleetForce, ParseError>)
        ensures
            r is Ok <==> spec_is_numeral(s@) && spec_numeral_value(s@) <= FLEET_FORCE_MAX,
            r is Ok ==> r->Ok_0 == FleetForce(spec_numeral_value(s@) as u32) && r->Ok_0.wf(),
            r == Err::<FleetForce, ParseError>(ParseError::NotNumeric) <==> !spec_is_numeral(s@),
            r == Err::<FleetForce, ParseError>(ParseError::OutOfRange) <==> spec_is_numeral(s@)
                && spec_numeral_value(s@) > FLEET_FORCE_MAX,
    {
        match parse_bounded(s, FLEET_FORCE_MAX) {
            Ok(v) => Ok(FleetForce(v)),
            Err(e) => Err(e),
        }
    }
}

impl Formation {
    /// Parses form text into a formation, rejecting text that is not a
    /// plain decimal numeral and numbers above `FORMATION_MAX`.
    pub fn parse(s: &str) -> (r: Result<Formation, ParseError>)
        ensures
            r is Ok <==> spec_is_numeral(s@) && spec_numeral_value(s@) <= FORMATION_MAX,
            r is Ok ==> r->Ok_0 == Formation(spec_numeral_value(s@) as u8) && r->Ok_0.wf(),
            r == Err::<Formation, ParseError>(ParseError::NotNumeric) <==> !spec_is_numeral(s@),
            r == Err::<Formation, ParseError>(ParseError::OutOfRange) <==> spec_is_numeral(s@)
                && spec_numeral_value(s@) > FORMATION_MAX,
    {
        match parse_bounded(s, FORMATION_MAX as u32) {
            Ok(v) => Ok(Formation(v as u8)),
            Err(e) => Err(e),
        }
    }
}

} // verus!
