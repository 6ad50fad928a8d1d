//! Text that the SQL generator writes: decimal numbers, lists of them as
//! Rust's `Debug` prints a slice, and separator-joined clauses.

use vstd::prelude::*;

verus! {

/// The one-character text of a decimal digit.
pub open spec fn digit_text(d: int) -> Seq<char> {
    if d == 0 {
        "0"@
    } else if d == 1 {
        "1"@
    } else if d == 2 {
        "2"@
    } else if d == 3 {
        "3"@
    } else if d == 4 {
        "4"@
    } else if d == 5 {
        "5"@
    } else if d == 6 {
        "6"@
    } else if d == 7 {
        "7"@
    } else if d == 8 {
        "8"@
    } else {
        "9"@
    }
}

/// The decimal text of a natural number, without leading zeros.
pub open spec fn decimal(n: nat) -> Seq<char>
    decreases n,
{
    if n < 10 {
        digit_text(n as int)
    } else {
        decimal(n / 10) + digit_text((n % 10) as int)
    }
}

/// The parts joined by the separator: nothing for no parts, the part itself
/// for one.
pub open spec fn join(parts: Seq<Seq<char>>, sep: Seq<char>) -> Seq<char>
    decreases parts.len(),
{
    if parts.len() == 0 {
        Seq::empty()
    } else if parts.len() == 1 {
        parts[0]
    } else {
        join(parts.drop_last(), sep) + sep + parts.last()
    }
}

/// A list of numbers as Rust's `Debug` prints a slice of them:
/// `[1, 22, 333]`.
pub open spec fn u32_list_text(ids: Seq<u32>) -> Seq<char> {
    "["@ + join(ids.map_values(|n: u32| decimal(n as nat)), ", "@) + "]"@
}

fn digit_str(d: u32) -> (s: &'static str)
    requires
        d < 10,
    ensures
        s@ == digit_text(d as int),
{
    if d == 0 {
        "0"
    } else if d == 1 {
        "1"
    } else if d == 2 {
        "2"
    } else if d == 3 {
        "3"
    } else if d == 4 {
        "4"
    } else if d == 5 {
        "5"
    } else if d == 6 {
        "6"
    } else if d == 7 {
        "7"
    } else if d == 8 {
        "8"
    } else {
        "9"
    }
}

/// Appends the decimal text of `n`.
pub fn push_decimal(out: &mut String, n: u32)
    ensures
        final(out)@ == old(out)@ + decimal(n as nat),
    decreases n,
{
    if n >= 10 {
        push_decimal(out, n / 10);
    }
    out.append(digit_str(n % 10));
}

/// Appends the list of numbers as `u32_list_text` writes it.
pub fn push_u32_list(out: &mut String, ids: &[u32])
    ensures
        final(out)@ == old(out)@ + u32_list_text(ids@),
{
    let ghost start = out@;
    let ghost parts = ids@.map_values(|n: u32| decimal(n as nat));
    out.append("[");
    let mut i: usize = 0;
    while i < ids.len()
        invariant
            i <= ids.len(),
            parts.len() == ids@.len(),
            forall|k: int| 0 <= k < ids@.len() ==> #[trigger] parts[k] == decimal(ids@[k] as nat),
            out@ == start + "["@ + join(parts.take(i as int), ", "@),
        decreases ids.len() - i,
    {
        if i > 0 {
            out.append(", ");
        }
        push_decimal(out, ids[i]);
        assert(parts.take(i + 1).drop_last() =~= parts.take(i as int));
        i = i + 1;
    }
    assert(parts.take(ids.len() as int) =~= parts);
    out.append("]");
}

} // verus!
