use vstd::prelude::*;

verus! {

pub open spec fn digit_char(d: nat) -> char {
    seq!['0', '1', '2', '3', '4', '5', '6', '7', '8', '9'][d as int]
}

/// The decimal digits of `n`, most significant first, without leading zeros.
pub open spec fn decimal(n: nat) -> Seq<char>
    decreases n,
{
    if n < 10 {
        seq![digit_char(n)]
    } else {
        decimal(n / 10).push(digit_char(n % 10))
    }
}

fn digit_str(d: u64) -> (r: &'static str)
    requires
        d < 10,
    ensures
        r@ == seq![digit_char(d as nat)],
{
    proof {
        reveal_strlit("0");
        reveal_strlit("1");
        reveal_strlit("2");
        reveal_strlit("3");
        reveal_strlit("4");
        reveal_strlit("5");
        reveal_strlit("6");
        reveal_strlit("7");
        reveal_strlit("8");
        reveal_strlit("9");
    }
    let r = if d == 0 {
        "0"
    } else if d == 1 {
        "1"
    } else if d == 2 {
        "2"
    } else if d == 3 {
        "3"
    } else if d == 4 {
        "4"
    } else if d == 5 {
        "5"
    } else if d == 6 {
        "6"
    } else if d == 7 {
        "7"
    } else if d == 8 {
        "8"
    } else {
        "9"
    };
    assert(r@ =~= seq![digit_char(d as nat)]);
    r
}

/// Appends the decimal digits of `n` to `s`.
pub fn push_decimal(s: &mut String, n: u64)
    ensures
        final(s)@ == old(s)@ + decimal(n as nat),
    decreases n,
{
    if n >= 10 {
        push_decimal(s, n / 10);
    }
    s.append(digit_str(n % 10));
    assert(s@ =~= old(s)@ + decimal(n as nat));
}

/// The largest count that a badge shows; larger counts show this value.
pub const BADGE_MAX: i32 = 99;

pub open spec fn badge_spec(count: int) -> Option<Seq<char>> {
    if count <= 0 {
        None
    } else if count > BADGE_MAX {
        Some(decimal(BADGE_MAX as nat))
    } else {
        Some(decimal(count as nat))
    }
}

/// The text of the taskbar badge for `count` pending items: none when there
/// is nothing pending, the count itself, and at most `99`.
pub fn badge_label(count: i32) -> (r: Option<String>)
    ensures
        r matches Some(t) ==> badge_spec(count as int) == Some(t@),
        r is None <==> badge_spec(count as int) is None,
{
    if count <= 0 {
        None
    } else {
        let shown: i32 = if count > BADGE_MAX { BADGE_MAX } else { count };
        let mut t = String::new();
        push_decimal(&mut t, shown as u64);
        assert(t@ =~= decimal(shown as nat));
        Some(t)
    }
}

} // verus!
