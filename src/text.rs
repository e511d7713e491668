use vstd::prelude::*;

verus! {

/// Relies on `String::push`: the character is appended at the end.
#[verifier::external_body]
pub(crate) fn push_char(s: &mut String, c: char)
    ensures
        final(s)@ == old(s)@.push(c),
{
    s.push(c)
}

/// The decimal digit for `d`, below ten.
pub open spec fn digit(d: nat) -> char {
    seq!['0', '1', '2', '3', '4', '5', '6', '7', '8', '9'][d as int]
}

/// The decimal numeral of `n`, without leading zeros.
pub open spec fn decimal(n: nat) -> Seq<char>
    decreases n,
{
    if n < 10 {
        seq![digit(n)]
    } else {
        decimal(n / 10).push(digit(n % 10))
    }
}

/// Relies on `usize`'s `Display`, through `to_string`: the decimal numeral
/// of the number, without sign or leading zeros.
#[verifier::external_body]
pub(crate) fn usize_to_decimal(n: usize) -> (r: String)
    ensures
        r@ == decimal(n as nat),
{
    n.to_string()
}

/// `count` spaces.
pub open spec fn spaces(count: nat) -> Seq<char> {
    Seq::new(count, |i: int| ' ')
}

/// Appends spaces to `s` until it holds `width` characters.
pub fn pad_with_spaces(s: &mut String, width: usize)
    ensures
        final(s)@ == old(s)@ + spaces(if old(s)@.len() < width {
            (width - old(s)@.len()) as nat
        } else {
            0
        }),
{
    let ghost start = s@;
    let n = s.as_str().unicode_len();
    let mut count: usize = n;
    while count < width
        invariant
            n == start.len(),
            n <= width ==> n <= count <= width,
            n > width ==> count == n,
            s@ == start + spaces((count - n) as nat),
        decreases width - count,
    {
        push_char(s, ' ');
        count = count + 1;
        assert(s@ =~= start + spaces((count - n) as nat));
    }
    assert(s@ =~= start + spaces(if start.len() < width {
        (width - start.len()) as nat
    } else {
        0
    }));
}

} // verus!
