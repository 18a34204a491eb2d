//! Building strings: concatenation helpers, decimal numbers, path joining and
//! pattern replacement, each with an exact statement over `Seq<char>`.

use vstd::prelude::*;

verus! {

/// Appends one character to `s`.
///
/// Trusted: calls `String::push` of std, which appends `c` to the end of the
/// string.
#[verifier::external_body]
fn push_char(s: &mut String, c: char)
    ensures
        final(s)@ == old(s)@.push(c),
{
    s.push(c);
}

/// The decimal digit `d` as a character.
pub open spec fn digit_char(d: nat) -> char {
    if d == 0 {
        '0'
    } else if d == 1 {
        '1'
    } else if d == 2 {
        '2'
    } else if d == 3 {
        '3'
    } else if d == 4 {
        '4'
    } else if d == 5 {
        '5'
    } else if d == 6 {
        '6'
    } else if d == 7 {
        '7'
    } else if d == 8 {
        '8'
    } else {
        '9'
    }
}

/// The decimal digits of `n`, most significant first, without leading zeros.
pub open spec fn digits(n: nat) -> Seq<char>
    decreases n,
{
    if n < 10 {
        seq![digit_char(n)]
    } else {
        digits(n / 10).push(digit_char(n % 10))
    }
}

/// The decimal representation of `n`, with a leading `-` when it is negative.
pub open spec fn decimal(n: int) -> Seq<char> {
    if n < 0 {
        seq!['-'] + digits((-n) as nat)
    } else {
        digits(n as nat)
    }
}

fn digit(d: u64) -> (c: char)
    requires
        d < 10,
    ensures
        c == digit_char(d as nat),
{
    if d == 0 {
        '0'
    } else if d == 1 {
        '1'
    } else if d == 2 {
        '2'
    } else if d == 3 {
        '3'
    } else if d == 4 {
        '4'
    } else if d == 5 {
        '5'
    } else if d == 6 {
        '6'
    } else if d == 7 {
        '7'
    } else if d == 8 {
        '8'
    } else {
        '9'
    }
}

fn push_digits(s: &mut String, n: u64)
    ensures
        final(s)@ == old(s)@ + digits(n as nat),
    decreases n,
{
    if n < 10 {
        push_char(s, digit(n));
        assert(old(s)@.push(digit_char(n as nat)) =~= old(s)@ + digits(n as nat));
    } else {
        push_digits(s, n / 10);
        push_char(s, digit(n % 10));
        assert(old(s)@ + digits((n / 10) as nat) + seq![digit_char((n % 10) as nat)] =~= old(s)@
            + digits(n as nat));
    }
}

/// Appends the decimal representation of `n` to `s`.
pub fn push_decimal(s: &mut String, n: i64)
    ensures
        final(s)@ == old(s)@ + decimal(n as int),
{
    if n < 0 {
        push_char(s, '-');
        let m: u64 = ((-(n + 1)) as u64) + 1;
        push_digits(s, m);
        assert(old(s)@.push('-') + digits(m as nat) =~= old(s)@ + decimal(n as int));
    } else {
        push_digits(s, n as u64);
    }
}

/// The concatenation of `a` and `b`.
pub fn concat2(a: &str, b: &str) -> (s: String)
    ensures
        s@ == a@ + b@,
{
    let mut s = a.to_owned();
    s.append(b);
    s
}

/// The concatenation of `a`, `b` and `c`.
pub fn concat3(a: &str, b: &str, c: &str) -> (s: String)
    ensures
        s@ == a@ + b@ + c@,
{
    let mut s = a.to_owned();
    s.append(b);
    s.append(c);
    s
}

/// `name` appended to the directory `base`, with a `/` between them unless
/// `base` is empty or already ends with one (the way a relative path is
/// joined to a directory).
pub open spec fn joined(base: Seq<char>, name: Seq<char>) -> Seq<char> {
    if base.len() == 0 || base.last() == '/' {
        base + name
    } else {
        base + seq!['/'] + name
    }
}

/// The path of the relative entry `name` inside the directory `base`.
pub fn join_path(base: &str, name: &str) -> (p: String)
    ensures
        p@ == joined(base@, name@),
{
    proof {
        reveal_strlit("/");
    }
    let n = base.unicode_len();
    if n == 0 || base.get_char(n - 1) == '/' {
        concat2(base, name)
    } else {
        concat3(base, "/", name)
    }
}

} // verus!

verus! {

/// The lines `parts` joined with a newline between consecutive lines.
pub open spec fn lines_joined(parts: Seq<Seq<char>>) -> Seq<char>
    decreases parts.len(),
{
    if parts.len() == 0 {
        Seq::empty()
    } else if parts.len() == 1 {
        parts[0]
    } else {
        lines_joined(parts.drop_last()) + seq!['\n'] + parts.last()
    }
}

/// The lines `parts` joined with a newline between consecutive lines.
pub fn join_lines(parts: &Vec<String>) -> (s: String)
    ensures
        s@ == lines_joined(crate::config::texts(parts@)),
{
    let ghost t = crate::config::texts(parts@);
    let mut s = String::new();
    let n = parts.len();
    for i in 0..n
        invariant
            n == parts@.len(),
            t == crate::config::texts(parts@),
            s@ == lines_joined(t.take(i as int)),
    {
        proof {
            assert(t.take(i + 1).drop_last() =~= t.take(i as int));
        }
        if i > 0 {
            push_char(&mut s, '\n');
        } else {
            assert(s@ =~= Seq::<char>::empty());
        }
        s.append(parts[i].as_str());
    }
    assert(t.take(n as int) =~= t);
    s
}

} // verus!

verus! {

/// Appends the decimal digits of `n` to `s`.
pub fn push_digits_u64(s: &mut String, n: u64)
    ensures
        final(s)@ == old(s)@ + decimal(n as int),
{
    push_digits(s, n);
}

} // verus!
