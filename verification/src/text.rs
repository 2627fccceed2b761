//! Building texts: concatenation, decimal numbers and `/`-separated paths.

use vstd::prelude::*;
use vstd::string::StringExecFns;

verus! {

/// The character of a decimal digit.
pub open spec fn digit(d: nat) -> char {
    if d == 0 {
        '0'
    } else if d == 1 {
        '1'
    } else if d == 2 {
        '2'
    } else if d == 3 {
        '3'
    } else if d == 4 {
        '4'
    } else if d == 5 {
        '5'
    } else if d == 6 {
        '6'
    } else if d == 7 {
        '7'
    } else if d == 8 {
        '8'
    } else {
        '9'
    }
}

/// The decimal digits of a natural number, without leading zeros.
pub open spec fn digits(n: nat) -> Seq<char>
    decreases n,
{
    if n < 10 {
        seq![digit(n)]
    } else {
        digits(n / 10).push(digit(n % 10))
    }
}

/// The decimal text of an integer, with `-` in front of a negative one.
pub open spec fn decimal(n: int) -> Seq<char> {
    if n < 0 {
        seq!['-'] + digits((-n) as nat)
    } else {
        digits(n as nat)
    }
}

/// The parts of a path, each followed by `/`.
pub open spec fn slash_ended(parts: Seq<Seq<char>>) -> Seq<char>
    decreases parts.len(),
{
    if parts.len() == 0 {
        Seq::empty()
    } else {
        slash_ended(parts.drop_last()) + parts.last() + seq!['/']
    }
}

/// The parts of a path with a `/` between each two of them.
pub open spec fn slash_joined(parts: Seq<Seq<char>>) -> Seq<char> {
    if parts.len() == 0 {
        Seq::empty()
    } else {
        slash_ended(parts.drop_last()) + parts.last()
    }
}

/// The texts of a sequence of strings.
pub open spec fn texts(strings: Seq<String>) -> Seq<Seq<char>> {
    strings.map_values(|s: String| s@)
}

/// Whether two texts are the same.
pub fn same_text(a: &str, b: &str) -> (r: bool)
    ensures
        r == (a@ == b@),
{
    let left = String::from_str(a);
    let right = String::from_str(b);
    left == right
}

/// The two texts one after the other.
pub fn appended(a: &str, b: &str) -> (r: String)
    ensures
        r@ == a@ + b@,
{
    let mut out = String::from_str(a);
    out.append(b);
    out
}

fn digit_str(d: u64) -> (r: &'static str)
    requires
        d < 10,
    ensures
        r@ == seq![digit(d as nat)],
{
    proof {
        reveal_strlit("0");
        reveal_strlit("1");
        reveal_strlit("2");
        reveal_strlit("3");
        reveal_strlit("4");
        reveal_strlit("5");
        reveal_strlit("6");
        reveal_strlit("7");
        reveal_strlit("8");
        reveal_strlit("9");
    }
    let r = if d == 0 {
        "0"
    } else if d == 1 {
        "1"
    } else if d == 2 {
        "2"
    } else if d == 3 {
        "3"
    } else if d == 4 {
        "4"
    } else if d == 5 {
        "5"
    } else if d == 6 {
        "6"
    } else if d == 7 {
        "7"
    } else if d == 8 {
        "8"
    } else {
        "9"
    };
    r
}

/// The decimal text of an unsigned number.
pub fn unsigned_text(n: u64) -> (r: String)
    ensures
        r@ == decimal(n as int),
    decreases n,
{
    if n < 10 {
        String::from_str(digit_str(n))
    } else {
        let mut out = unsigned_text(n / 10);
        out.append(digit_str(n % 10));
        out
    }
}

/// The decimal text of a signed number.
pub fn signed_text(n: i64) -> (r: String)
    ensures
        r@ == decimal(n as int),
{
    if n >= 0 {
        unsigned_text(n as u64)
    } else {
        let magnitude: u64 = (-(n + 1)) as u64 + 1;
        let mut out = String::from_str("-");
        proof {
            reveal_strlit("-");
        }
        let tail = unsigned_text(magnitude);
        out.append(tail.as_str());
        out
    }
}

/// The path that leads through `ancestors` to `last`, separated by `/`.
pub fn path_to(ancestors: &Vec<String>, last: &str) -> (r: String)
    ensures
        r@ == slash_joined(texts(ancestors@).push(last@)),
{
    let mut out = String::new();
    let mut i: usize = 0;
    while i < ancestors.len()
        invariant
            i <= ancestors.len(),
            out@ == slash_ended(texts(ancestors@).take(i as int)),
        decreases ancestors.len() - i,
    {
        out.append(ancestors[i].as_str());
        out.append("/");
        proof {
            reveal_strlit("/");
            assert(texts(ancestors@).take(i + 1).drop_last() =~= texts(ancestors@).take(i as int));
        }
        i += 1;
    }
    out.append(last);
    proof {
        let all = texts(ancestors@).push(last@);
        assert(texts(ancestors@).take(i as int) =~= texts(ancestors@));
        assert(all.drop_last() =~= texts(ancestors@));
    }
    out
}

} // verus!
