//! The two result lines: how the numbers of a result are set out as text.

use vstd::prelude::*;
use vstd::string::*;

verus! {

/// The position line for three numbers already written out: both
/// coordinates in metres and the heading in degrees, in brackets.
pub open spec fn spec_position_text(x: Seq<char>, y: Seq<char>, heading: Seq<char>) -> Seq<char> {
    "("@ + x + " m, "@ + y + " m, "@ + heading + "º)"@
}

/// The velocity line for three numbers already written out: both
/// components in metres per second and the angular velocity in radians per
/// second, in brackets.
pub open spec fn spec_velocity_text(vx: Seq<char>, vy: Seq<char>, rate: Seq<char>) -> Seq<char> {
    "("@ + vx + " m/s, "@ + vy + " m/s, "@ + rate + " rad/s)"@
}

/// Sets out the position line.
pub fn position_text(x: &str, y: &str, heading: &str) -> (text: String)
    ensures
        text@ == spec_position_text(x@, y@, heading@),
{
    let mut text = String::from_str("(");
    text.append(x);
    text.append(" m, ");
    text.append(y);
    text.append(" m, ");
    text.append(heading);
    text.append("º)");
    text
}

/// Sets out the velocity line.
pub fn velocity_text(vx: &str, vy: &str, rate: &str) -> (text: String)
    ensures
        text@ == spec_velocity_text(vx@, vy@, rate@),
{
    let mut text = String::from_str("(");
    text.append(vx);
    text.append(" m/s, ");
    text.append(vy);
    text.append(" m/s, ");
    text.append(rate);
    text.append(" rad/s)");
    text
}

} // verus!
