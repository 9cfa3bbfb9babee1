//! The lines shown to the user: what is wrong with the arguments, and how
//! the program is meant to be called.

use crate::validate::ValidationError;
use vstd::prelude::*;
use vstd::string::*;

verus! {

/// The texts of `parts` with `separator` between each two neighbours.
pub open spec fn join(parts: Seq<Seq<char>>, separator: Seq<char>) -> Seq<char>
    decreases parts.len(),
{
    if parts.len() == 0 {
        Seq::<char>::empty()
    } else if parts.len() == 1 {
        parts[0]
    } else {
        join(parts.drop_last(), separator) + separator + parts.last()
    }
}

/// The names under which the faults among `errors` are reported, each at
/// most once and always in the same order, however `errors` is ordered.
pub open spec fn error_parts(errors: Seq<ValidationError>) -> Seq<Seq<char>> {
    let mac = if errors.contains(ValidationError::Mac) {
        seq!["MAC"@]
    } else {
        Seq::<Seq<char>>::empty()
    };
    let subnet = if errors.contains(ValidationError::Subnet) {
        seq!["SubNet"@]
    } else {
        Seq::<Seq<char>>::empty()
    };
    let ipv6 = if errors.contains(ValidationError::IpV6NotSupported) {
        seq!["IPv6 Not Supported"@]
    } else {
        Seq::<Seq<char>>::empty()
    };
    mac + subnet + ipv6
}

/// The line that reports `errors`.
pub open spec fn error_line(errors: Seq<ValidationError>) -> Seq<char> {
    "ValueError: "@ + join(error_parts(errors), " and "@)
}

/// The line that says how `program` is meant to be called.
pub open spec fn usage_line(program: Seq<char>) -> Seq<char> {
    "Usage: "@ + program + " <MAC_ADDRESS> <SUBNET_CIDR>"@
}

/// Whether `wanted` occurs among `errors`.
fn has_error(errors: &Vec<ValidationError>, wanted: ValidationError) -> (found: bool)
    ensures
        found == errors@.contains(wanted),
{
    let mut i: usize = 0;
    while i < errors.len()
        invariant
            i <= errors@.len(),
            forall|j: int| 0 <= j < i ==> errors@[j] != wanted,
        decreases errors@.len() - i,
    {
        if errors[i] == wanted {
            return true;
        }
        i += 1;
    }
    false
}

/// Appends `part` to the list that follows the first `head` characters of
/// `line`, with the separator before it unless it is the first of the list.
fn append_part(
    line: &mut String,
    part: &str,
    first: bool,
    Ghost(head): Ghost<Seq<char>>,
    Ghost(parts): Ghost<Seq<Seq<char>>>,
)
    requires
        old(line)@ == head + join(parts, " and "@),
        first == (parts.len() == 0),
    ensures
        final(line)@ == head + join(parts.push(part@), " and "@),
{
    assert(parts.push(part@).drop_last() =~= parts);
    if !first {
        line.append(" and ");
    }
    line.append(part);
    assert(line@ =~= head + join(parts.push(part@), " and "@));
}

/// Words the report of `errors`: `ValueError: ` and then the names of the
/// faults, joined by ` and `.
pub fn error_message(errors: &Vec<ValidationError>) -> (line: String)
    ensures
        line@ == error_line(errors@),
{
    let mut line = String::from_str("ValueError: ");
    let ghost head = "ValueError: "@;
    let ghost mut parts = Seq::<Seq<char>>::empty();
    let mut first = true;
    assert(line@ =~= head + join(parts, " and "@));
    if has_error(errors, ValidationError::Mac) {
        append_part(&mut line, "MAC", first, Ghost(head), Ghost(parts));
        proof {
            parts = parts.push("MAC"@);
        }
        first = false;
    }
    if has_error(errors, ValidationError::Subnet) {
        append_part(&mut line, "SubNet", first, Ghost(head), Ghost(parts));
        proof {
            parts = parts.push("SubNet"@);
        }
        first = false;
    }
    if has_error(errors, ValidationError::IpV6NotSupported) {
        append_part(&mut line, "IPv6 Not Supported", first, Ghost(head), Ghost(parts));
        proof {
            parts = parts.push("IPv6 Not Supported"@);
        }
    }
    assert(parts =~= error_parts(errors@));
    line
}

/// Words the usage line for the program called `program`.
pub fn usage(program: &str) -> (line: String)
    ensures
        line@ == usage_line(program@),
{
    let mut line = String::from_str("Usage: ");
    line.append(program);
    line.append(" <MAC_ADDRESS> <SUBNET_CIDR>");
    line
}

} // verus!
