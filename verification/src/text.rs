//! Text that messages are made of: decimal numbers, and joining of strings.

use vstd::prelude::*;
use vstd::string::*;

verus! {

/// The character of a decimal digit.
pub open spec fn digit_char(d: nat) -> char {
    (('0' as nat) + d) as char
}

/// A number in decimal, without leading zeros.
pub open spec fn decimal(n: nat) -> Seq<char>
    decreases n,
{
    if n < 10 {
        seq![digit_char(n)]
    } else {
        decimal(n / 10).push(digit_char(n % 10))
    }
}

/// The text of one digit.
fn digit_text(d: u64) -> (s: &'static str)
    requires
        d < 10,
    ensures
        s@ == seq![digit_char(d as nat)],
{
    proof {
        reveal_strlit("0");
        reveal_strlit("1");
        reveal_strlit("2");
        reveal_strlit("3");
        reveal_strlit("4");
        reveal_strlit("5");
        reveal_strlit("6");
        reveal_strlit("7");
        reveal_strlit("8");
        reveal_strlit("9");
    }
    match d {
        0 => "0",
        1 => "1",
        2 => "2",
        3 => "3",
        4 => "4",
        5 => "5",
        6 => "6",
        7 => "7",
        8 => "8",
        _ => "9",
    }
}

/// Writes a number in decimal.
pub fn decimal_text(n: u64) -> (s: String)
    ensures
        s@ == decimal(n as nat),
    decreases n,
{
    if n < 10 {
        digit_text(n).to_owned()
    } else {
        let mut s = decimal_text(n / 10);
        s.append(digit_text(n % 10));
        proof {
            assert(s@ =~= decimal(n as nat));
        }
        s
    }
}

/// Whether a text holds a character.
pub fn contains_char(s: &str, wanted: char) -> (found: bool)
    ensures
        found == s@.contains(wanted),
{
    for c in it: s.chars()
        invariant
            it.seq() == s@,
            forall|i: int| 0 <= i < it.index() ==> s@[i] != wanted,
    {
        if c == wanted {
            assert(s@[it.index() as int] == wanted);
            return true;
        }
    }
    false
}

/// Whether a text starts with another.
pub fn starts_with(s: &str, prefix: &str) -> (starts: bool)
    ensures
        starts == prefix@.is_prefix_of(s@),
{
    let n: usize = prefix.unicode_len();
    if s.unicode_len() < n {
        return false;
    }
    s.substring_char(0, n).to_owned() == prefix.to_owned()
}

/// How many characters stand before the first occurrence of a character.
pub open spec fn position(s: Seq<char>, wanted: char) -> nat
    decreases s.len(),
{
    if s.len() == 0 || s[0] == wanted {
        0
    } else {
        1 + position(s.drop_first(), wanted)
    }
}

/// The first occurrence is the one before which there is none.
pub proof fn position_is_first(s: Seq<char>, wanted: char, i: int)
    requires
        0 <= i < s.len(),
        s[i] == wanted,
        forall|j: int| 0 <= j < i ==> s[j] != wanted,
    ensures
        position(s, wanted) == i,
    decreases i,
{
    if i > 0 {
        assert(s[0] != wanted);
        position_is_first(s.drop_first(), wanted, i - 1);
    }
}

/// Splits a text at the first occurrence of a character: what stands before it, and what stands
/// behind it.
pub fn split_once(s: &str, wanted: char) -> (split: Option<(&str, &str)>)
    ensures
        match split {
            Some((before, behind)) => s@.contains(wanted) && before@ == s@.take(
                position(s@, wanted) as int,
            ) && behind@ == s@.skip(position(s@, wanted) as int + 1),
            None => !s@.contains(wanted),
        },
{
    let n: usize = s.unicode_len();
    let mut i: usize = 0;
    for c in it: s.chars()
        invariant
            it.seq() == s@,
            n == s@.len(),
            i == it.index(),
            forall|j: int| 0 <= j < i ==> s@[j] != wanted,
    {
        if c == wanted {
            proof {
                assert(s@[i as int] == wanted);
                position_is_first(s@, wanted, i as int);
            }
            return Some((s.substring_char(0, i), s.substring_char(i + 1, n)));
        }
        i = i + 1;
    }
    None
}

/// Joins three pieces of text.
pub fn join3(a: &str, b: &str, c: &str) -> (s: String)
    ensures
        s@ == a@ + b@ + c@,
{
    let mut s = a.to_owned();
    s.append(b);
    s.append(c);
    s
}

} // verus!
