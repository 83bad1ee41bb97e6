//! Small pieces of text handling shared by the path and symbol-name code.

use vstd::prelude::*;

verus! {

/// The character that writes the digit `d` (0 to 9) in base ten.
pub open spec fn digit_char(d: nat) -> char {
    if d == 0 {
        '0'
    } else if d == 1 {
        '1'
    } else if d == 2 {
        '2'
    } else if d == 3 {
        '3'
    } else if d == 4 {
        '4'
    } else if d == 5 {
        '5'
    } else if d == 6 {
        '6'
    } else if d == 7 {
        '7'
    } else if d == 8 {
        '8'
    } else {
        '9'
    }
}

/// Whether `c` is one of the ten decimal digits.
pub open spec fn is_digit(c: char) -> bool {
    c == '0' || c == '1' || c == '2' || c == '3' || c == '4' || c == '5' || c == '6' || c == '7'
        || c == '8' || c == '9'
}

/// The value of a decimal digit character; 0 for any other character.
pub open spec fn digit_value(c: char) -> nat {
    if c == '1' {
        1
    } else if c == '2' {
        2
    } else if c == '3' {
        3
    } else if c == '4' {
        4
    } else if c == '5' {
        5
    } else if c == '6' {
        6
    } else if c == '7' {
        7
    } else if c == '8' {
        8
    } else if c == '9' {
        9
    } else {
        0
    }
}

/// `n` written in base ten, most significant digit first, without leading
/// zeros (zero itself is "0").
pub open spec fn decimal(n: nat) -> Seq<char>
    decreases n,
{
    if n < 10 {
        seq![digit_char(n)]
    } else {
        decimal(n / 10).push(digit_char(n % 10))
    }
}

/// The number that a sequence of decimal digits writes.
pub open spec fn decimal_value(s: Seq<char>) -> nat
    decreases s.len(),
{
    if s.len() == 0 {
        0
    } else {
        decimal_value(s.drop_last()) * 10 + digit_value(s.last())
    }
}

/// Every character of `decimal(n)` is a digit, there is at least one, and the
/// digits read back as `n`.
pub proof fn decimal_reads_back(n: nat)
    ensures
        decimal(n).len() >= 1,
        forall|i: int| 0 <= i < decimal(n).len() ==> is_digit(#[trigger] decimal(n)[i]),
        decimal_value(decimal(n)) == n,
    decreases n,
{
    if n < 10 {
        let s = decimal(n);
        assert(s.drop_last() =~= Seq::<char>::empty());
        assert(decimal_value(s.drop_last()) == 0);
        assert(s.last() == digit_char(n));
    } else {
        decimal_reads_back(n / 10);
        let s = decimal(n);
        assert(s.drop_last() =~= decimal(n / 10));
        assert(s.last() == digit_char(n % 10));
        assert forall|i: int| 0 <= i < s.len() implies is_digit(#[trigger] s[i]) by {
            if i < s.len() - 1 {
                assert(s[i] == decimal(n / 10)[i]);
            }
        }
    }
}

/// Different numbers are written differently.
pub proof fn decimal_is_injective(a: nat, b: nat)
    requires
        decimal(a) == decimal(b),
    ensures
        a == b,
{
    decimal_reads_back(a);
    decimal_reads_back(b);
}

/// The one-character text of a decimal digit.
fn digit_text(d: u64) -> (r: &'static str)
    requires
        d < 10,
    ensures
        r@ == seq![digit_char(d as nat)],
{
    proof {
        reveal_strlit("0");
        reveal_strlit("1");
        reveal_strlit("2");
        reveal_strlit("3");
        reveal_strlit("4");
        reveal_strlit("5");
        reveal_strlit("6");
        reveal_strlit("7");
        reveal_strlit("8");
        reveal_strlit("9");
    }
    let r = if d == 0 {
        "0"
    } else if d == 1 {
        "1"
    } else if d == 2 {
        "2"
    } else if d == 3 {
        "3"
    } else if d == 4 {
        "4"
    } else if d == 5 {
        "5"
    } else if d == 6 {
        "6"
    } else if d == 7 {
        "7"
    } else if d == 8 {
        "8"
    } else {
        "9"
    };
    assert(r@ =~= seq![digit_char(d as nat)]);
    r
}

/// Writes `n` in base ten.
pub fn u64_to_decimal(n: u64) -> (r: String)
    ensures
        r@ == decimal(n as nat),
    decreases n,
{
    if n < 10 {
        String::from_str(digit_text(n))
    } else {
        let mut r = u64_to_decimal(n / 10);
        r.append(digit_text(n % 10));
        assert(r@ =~= decimal(n as nat));
        r
    }
}

/// The position just behind the last character of `s` that occurs in `stops`;
/// 0 where none does.
pub open spec fn after_last(s: Seq<char>, stops: Seq<char>) -> nat
    decreases s.len(),
{
    if s.len() == 0 {
        0
    } else if stops.contains(s.last()) {
        s.len()
    } else {
        after_last(s.drop_last(), stops)
    }
}

/// What `after_last` finds: a stop directly before the position, none behind.
pub proof fn after_last_is_last(s: Seq<char>, stops: Seq<char>)
    ensures
        after_last(s, stops) <= s.len(),
        after_last(s, stops) > 0 ==> stops.contains(s[after_last(s, stops) - 1]),
        forall|j: int| after_last(s, stops) <= j < s.len() ==> !stops.contains(#[trigger] s[j]),
    decreases s.len(),
{
    if s.len() > 0 && !stops.contains(s.last()) {
        after_last_is_last(s.drop_last(), stops);
        let r = after_last(s.drop_last(), stops);
        assert(r > 0 ==> s[r - 1] == s.drop_last()[r - 1]);
        assert forall|j: int| r <= j < s.len() implies !stops.contains(#[trigger] s[j]) by {
            if j < s.len() - 1 {
                assert(s[j] == s.drop_last()[j]);
            }
        }
    }
}

/// A position with a stop directly before it and none behind it is the one
/// that `after_last` finds.
pub proof fn after_last_unique(s: Seq<char>, stops: Seq<char>, cut: int)
    requires
        0 <= cut <= s.len(),
        cut > 0 ==> stops.contains(s[cut - 1]),
        forall|j: int| cut <= j < s.len() ==> !stops.contains(#[trigger] s[j]),
    ensures
        after_last(s, stops) == cut,
    decreases s.len(),
{
    if s.len() > 0 {
        if cut == s.len() {
        } else {
            assert(!stops.contains(s[s.len() - 1]));
            let t = s.drop_last();
            assert(cut > 0 ==> t[cut - 1] == s[cut - 1]);
            assert forall|j: int| cut <= j < t.len() implies !stops.contains(#[trigger] t[j]) by {
                assert(t[j] == s[j]);
            }
            after_last_unique(t, stops, cut);
        }
    }
}

/// Whether `c` occurs in `stops`.
pub fn is_one_of(stops: &str, c: char) -> (r: bool)
    ensures
        r == stops@.contains(c),
{
    let n: usize = stops.unicode_len();
    let mut i: usize = 0;
    while i < n
        invariant
            n == stops@.len(),
            i <= n,
            forall|j: int| 0 <= j < i ==> stops@[j] != c,
        decreases n - i,
    {
        if stops.get_char(i) == c {
            return true;
        }
        i += 1;
    }
    false
}

/// The position just behind the last character of `s` that occurs in `stops`.
pub fn find_after_last(s: &str, stops: &str) -> (r: usize)
    ensures
        r == after_last(s@, stops@),
        r <= s@.len(),
{
    let n: usize = s.unicode_len();
    let mut i: usize = n;
    proof {
        assert(s@.subrange(0, n as int) =~= s@);
        after_last_is_last(s@, stops@);
    }
    while i > 0
        invariant
            n == s@.len(),
            i <= n,
            after_last(s@, stops@) == after_last(s@.subrange(0, i as int), stops@),
        decreases i,
    {
        let c = s.get_char(i - 1);
        let ghost head = s@.subrange(0, i as int);
        proof {
            assert(head.last() == s@[i - 1]);
            assert(head.drop_last() =~= s@.subrange(0, i - 1));
        }
        if is_one_of(stops, c) {
            return i;
        }
        i -= 1;
    }
    0
}

/// `a` followed by `b`.
pub fn concat2(a: &str, b: &str) -> (r: String)
    ensures
        r@ == a@ + b@,
{
    let mut r = String::from_str(a);
    r.append(b);
    r
}

} // verus!
