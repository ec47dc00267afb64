//! Small verified string helpers: equality of `str` values and decimal
//! rendering of integers into messages.
use vstd::prelude::*;

verus! {

/// Whether two strings hold the same characters.
pub fn str_eq(a: &str, b: &str) -> (r: bool)
    ensures
        r == (a@ == b@),
{
    let n = a.unicode_len();
    if n != b.unicode_len() {
        return false;
    }
    let mut i: usize = 0;
    while i < n
        invariant
            n == a@.len(),
            n == b@.len(),
            i <= n,
            forall|j: int| 0 <= j < i ==> a@[j] == b@[j],
        decreases n - i,
    {
        if a.get_char(i) != b.get_char(i) {
            return false;
        }
        i = i + 1;
    }
    assert(a@ =~= b@);
    true
}

/// The one-character text of a decimal digit.
pub open spec fn digit_view(d: nat) -> Seq<char> {
    seq![('0' as u8 + d) as char]
}

/// Decimal text of a natural number, without leading zeros.
pub open spec fn decimal_view(x: nat) -> Seq<char>
    decreases x,
{
    if x < 10 {
        digit_view(x)
    } else {
        decimal_view(x / 10) + digit_view(x % 10)
    }
}

fn digit_str(d: u64) -> (r: &'static str)
    requires
        d < 10,
    ensures
        r@ == digit_view(d as nat),
{
    proof {
        reveal_strlit("0");
        reveal_strlit("1");
        reveal_strlit("2");
        reveal_strlit("3");
        reveal_strlit("4");
        reveal_strlit("5");
        reveal_strlit("6");
        reveal_strlit("7");
        reveal_strlit("8");
        reveal_strlit("9");
    }
    if d == 0 {
        "0"
    } else if d == 1 {
        "1"
    } else if d == 2 {
        "2"
    } else if d == 3 {
        "3"
    } else if d == 4 {
        "4"
    } else if d == 5 {
        "5"
    } else if d == 6 {
        "6"
    } else if d == 7 {
        "7"
    } else if d == 8 {
        "8"
    } else {
        "9"
    }
}

/// Appends the decimal text of `x`.
pub fn push_decimal(s: &mut String, x: u64)
    ensures
        final(s)@ == old(s)@ + decimal_view(x as nat),
    decreases x,
{
    if x < 10 {
        s.append(digit_str(x));
    } else {
        push_decimal(s, x / 10);
        s.append(digit_str(x % 10));
        assert(final(s)@ =~= old(s)@ + decimal_view(x as nat));
    }
}

/// Appends `piece`.
pub fn push_str(s: &mut String, piece: &str)
    ensures
        final(s)@ == old(s)@ + piece@,
{
    s.append(piece);
}

} // verus!
