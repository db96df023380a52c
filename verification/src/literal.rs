//! Writing a string as a Rust string literal.
//!
//! The emitted code holds asset paths and messages as literals. A literal is
//! written in ASCII alone: a double quote and a backslash get a backslash in
//! front, every other printable ASCII character stands for itself, and any
//! other character is written as `\u{..}` with six hexadecimal digits.

use vstd::prelude::*;

verus! {

/// Trusted. `String::push` appends one character to the end of the string,
/// as its documentation says.
pub assume_specification[ String::push ](s: &mut String, ch: char)
    ensures
        final(s)@ == old(s)@.push(ch),
;

/// The lower-case hexadecimal digit of a value below sixteen.
pub open spec fn hex_digit(n: int) -> char {
    if n < 10 {
        (n + 0x30) as char
    } else {
        (n + 0x57) as char
    }
}

/// Six hexadecimal digits of a value below `0x1000000`, the highest first.
pub open spec fn hex6(n: int) -> Seq<char> {
    seq![
        hex_digit(n / 0x100000 % 16),
        hex_digit(n / 0x10000 % 16),
        hex_digit(n / 0x1000 % 16),
        hex_digit(n / 0x100 % 16),
        hex_digit(n / 0x10 % 16),
        hex_digit(n % 16),
    ]
}

/// Whether a character stands for itself inside a literal.
pub open spec fn is_plain(c: char) -> bool {
    ' ' <= c <= '~' && c != '"' && c != '\\'
}

/// How one character is written inside a literal.
pub open spec fn escaped_char(c: char) -> Seq<char> {
    if c == '"' || c == '\\' {
        seq!['\\', c]
    } else if is_plain(c) {
        seq![c]
    } else {
        seq!['\\', 'u', '{'] + hex6(c as int) + seq!['}']
    }
}

/// How the characters of a string are written inside a literal.
pub open spec fn escaped(s: Seq<char>) -> Seq<char>
    decreases s.len(),
{
    if s.len() == 0 {
        Seq::empty()
    } else {
        escaped(s.drop_last()) + escaped_char(s.last())
    }
}

/// The literal that denotes `s`: its escaped characters between double quotes.
pub open spec fn quoted(s: Seq<char>) -> Seq<char> {
    seq!['"'] + escaped(s) + seq!['"']
}

fn push_hex_digit(out: &mut String, n: u32)
    requires
        n < 16,
    ensures
        final(out)@ == old(out)@.push(hex_digit(n as int)),
{
    let byte: u8 = if n < 10 {
        (n + 0x30) as u8
    } else {
        (n + 0x57) as u8
    };
    out.push(byte as char);
}

fn push_escaped_char(out: &mut String, c: char)
    ensures
        final(out)@ == old(out)@ + escaped_char(c),
{
    if c == '"' || c == '\\' {
        out.push('\\');
        out.push(c);
    } else if ' ' <= c && c <= '~' {
        out.push(c);
    } else {
        let n: u32 = c as u32;
        out.push('\\');
        out.push('u');
        out.push('{');
        push_hex_digit(out, n / 0x100000 % 16);
        push_hex_digit(out, n / 0x10000 % 16);
        push_hex_digit(out, n / 0x1000 % 16);
        push_hex_digit(out, n / 0x100 % 16);
        push_hex_digit(out, n / 0x10 % 16);
        push_hex_digit(out, n % 16);
        out.push('}');
    }
}

/// Writes `value` as a string literal.
pub fn string_literal(value: &str) -> (literal: String)
    ensures
        literal@ == quoted(value@),
{
    let mut out = String::new();
    out.push('"');
    for c in it: value.chars()
        invariant
            it.seq() == value@,
            out@ == seq!['"'] + escaped(value@.take(it.index() as int)),
    {
        proof {
            let done = value@.take(it.index() as int);
            let next = value@.take(it.index() + 1);
            assert(next.drop_last() == done);
            assert(next.last() == c);
        }
        push_escaped_char(&mut out, c);
    }
    assert(value@.take(value@.len() as int) == value@);
    out.push('"');
    out
}

/// Every character is written as at least one character.
pub proof fn lemma_escaped_char_is_not_empty(c: char)
    ensures
        escaped_char(c).len() > 0,
{
}

/// A digit tells its value.
proof fn lemma_hex_digit_is_injective(m: int, n: int)
    requires
        0 <= m < 16,
        0 <= n < 16,
        hex_digit(m) == hex_digit(n),
    ensures
        m == n,
{
    assert(hex_digit(m) as int == if m < 10 {
        m + 0x30
    } else {
        m + 0x57
    });
    assert(hex_digit(n) as int == if n < 10 {
        n + 0x30
    } else {
        n + 0x57
    });
}

/// Six digits tell a value below `0x1000000`.
proof fn lemma_hex6_is_injective(m: u32, n: u32)
    requires
        m < 0x1000000,
        n < 0x1000000,
        hex6(m as int) == hex6(n as int),
    ensures
        m == n,
{
    let a = hex6(m as int);
    let b = hex6(n as int);
    assert(a[0] == b[0] && a[1] == b[1] && a[2] == b[2] && a[3] == b[3] && a[4] == b[4] && a[5]
        == b[5]);
    lemma_hex_digit_is_injective(m as int / 0x100000 % 16, n as int / 0x100000 % 16);
    lemma_hex_digit_is_injective(m as int / 0x10000 % 16, n as int / 0x10000 % 16);
    lemma_hex_digit_is_injective(m as int / 0x1000 % 16, n as int / 0x1000 % 16);
    lemma_hex_digit_is_injective(m as int / 0x100 % 16, n as int / 0x100 % 16);
    lemma_hex_digit_is_injective(m as int / 0x10 % 16, n as int / 0x10 % 16);
    lemma_hex_digit_is_injective(m as int % 16, n as int % 16);
    assert(m == n) by (bit_vector)
        requires
            m < 0x1000000,
            n < 0x1000000,
            m / 0x100000 % 16 == n / 0x100000 % 16,
            m / 0x10000 % 16 == n / 0x10000 % 16,
            m / 0x1000 % 16 == n / 0x1000 % 16,
            m / 0x100 % 16 == n / 0x100 % 16,
            m / 0x10 % 16 == n / 0x10 % 16,
            m % 16 == n % 16,
    ;
}

/// No character's writing is the beginning of another's: where two escaped
/// texts agree, they begin with the same character, and their rests agree.
proof fn lemma_escaped_char_is_prefix_free(c: char, x: Seq<char>, d: char, y: Seq<char>)
    requires
        escaped_char(c) + x == escaped_char(d) + y,
    ensures
        c == d,
        x == y,
{
    let left = escaped_char(c) + x;
    let right = escaped_char(d) + y;
    assert(left[0] == right[0]);
    if is_plain(c) && is_plain(d) {
    } else if is_plain(c) || is_plain(d) {
        assert(false);
    } else {
        assert(left[1] == right[1]);
        let c_short = c == '"' || c == '\\';
        let d_short = d == '"' || d == '\\';
        if c_short != d_short {
            assert(false);
        } else if !c_short {
            assert forall|i: int| 0 <= i < 6 implies hex6(c as int)[i] == hex6(d as int)[i] by {
                assert(left[3 + i] == hex6(c as int)[i]);
                assert(right[3 + i] == hex6(d as int)[i]);
            }
            assert(hex6(c as int) =~= hex6(d as int));
            lemma_hex6_is_injective(c as u32, d as u32);
        }
    }
    assert(c == d);
    let n = escaped_char(c).len() as int;
    assert(x =~= left.subrange(n, left.len() as int));
    assert(y =~= right.subrange(n, right.len() as int));
}

/// The escaped text of a string begins with that of its first character.
proof fn lemma_escaped_from_the_front(s: Seq<char>)
    requires
        s.len() > 0,
    ensures
        escaped(s) == escaped_char(s.first()) + escaped(s.drop_first()),
    decreases s.len(),
{
    if s.len() == 1 {
        assert(s.drop_last() =~= Seq::<char>::empty());
        assert(s.drop_first() =~= Seq::<char>::empty());
        assert(escaped(s) =~= escaped_char(s.first()) + escaped(s.drop_first()));
    } else {
        lemma_escaped_from_the_front(s.drop_last());
        assert(s.drop_last().drop_first() =~= s.drop_first().drop_last());
        assert(s.drop_last().first() == s.first());
        assert(s.drop_first().last() == s.last());
        assert(escaped(s) =~= escaped_char(s.first()) + escaped(s.drop_first()));
    }
}

/// Two strings that are written alike are the same string.
pub proof fn lemma_escaped_is_injective(a: Seq<char>, b: Seq<char>)
    requires
        escaped(a) == escaped(b),
    ensures
        a == b,
    decreases a.len(),
{
    if a.len() == 0 {
        if b.len() > 0 {
            lemma_escaped_from_the_front(b);
            lemma_escaped_char_is_not_empty(b.first());
        }
        assert(a =~= b);
    } else {
        lemma_escaped_from_the_front(a);
        lemma_escaped_char_is_not_empty(a.first());
        assert(b.len() > 0);
        lemma_escaped_from_the_front(b);
        lemma_escaped_char_is_prefix_free(
            a.first(),
            escaped(a.drop_first()),
            b.first(),
            escaped(b.drop_first()),
        );
        lemma_escaped_is_injective(a.drop_first(), b.drop_first());
        assert(a =~= seq![a.first()] + a.drop_first());
        assert(b =~= seq![b.first()] + b.drop_first());
    }
}

/// A literal denotes one string only: distinct strings get distinct
/// literals.
pub proof fn lemma_quoted_is_injective(a: Seq<char>, b: Seq<char>)
    requires
        quoted(a) == quoted(b),
    ensures
        a == b,
{
    let left = quoted(a);
    let right = quoted(b);
    assert(escaped(a) =~= left.subrange(1, left.len() - 1));
    assert(escaped(b) =~= right.subrange(1, right.len() - 1));
    lemma_escaped_is_injective(a, b);
}

} // verus!
