//! Text building blocks: ASCII case mapping, capitalised names and decimal numbers.

use vstd::prelude::*;

verus! {

/// The ASCII upper-case form of `c`: `a` to `z` become `A` to `Z`, every other
/// character stays as it is.
pub open spec fn ascii_upper(c: char) -> char {
    if 'a' <= c && c <= 'z' {
        ((c as int) - 32) as char
    } else {
        c
    }
}

/// The ASCII lower-case form of `c`: `A` to `Z` become `a` to `z`, every other
/// character stays as it is.
pub open spec fn ascii_lower(c: char) -> char {
    if 'A' <= c && c <= 'Z' {
        ((c as int) + 32) as char
    } else {
        c
    }
}

/// `name` with its first character in upper case and all others in lower case.
pub open spec fn capitalized(name: Seq<char>) -> Seq<char> {
    Seq::new(
        name.len(),
        |i: int|
            if i == 0 {
                ascii_upper(name[i])
            } else {
                ascii_lower(name[i])
            },
    )
}

/// `a` and `b` are the same text up to the case of their ASCII letters.
pub open spec fn same_ignoring_case(a: Seq<char>, b: Seq<char>) -> bool {
    &&& a.len() == b.len()
    &&& forall|i: int| 0 <= i < a.len() ==> ascii_lower(#[trigger] a[i]) == ascii_lower(b[i])
}

/// The character that stands for the digit `d`, for `d` below ten.
pub open spec fn digit(d: nat) -> char {
    (48 + d) as char
}

/// `n` in decimal notation, without sign and without leading zeros.
pub open spec fn decimal(n: nat) -> Seq<char>
    decreases n,
{
    if n < 10 {
        seq![digit(n)]
    } else {
        decimal(n / 10).push(digit(n % 10))
    }
}

/// Maps `c` to ASCII upper case.
pub fn to_ascii_upper(c: char) -> (r: char)
    ensures
        r == ascii_upper(c),
{
    if 'a' <= c && c <= 'z' {
        let code: u8 = c as u8;
        (code - 32) as char
    } else {
        c
    }
}

/// Maps `c` to ASCII lower case.
pub fn to_ascii_lower(c: char) -> (r: char)
    ensures
        r == ascii_lower(c),
{
    if 'A' <= c && c <= 'Z' {
        let code: u8 = c as u8;
        (code + 32) as char
    } else {
        c
    }
}

/// Calls `String::push`, which appends the one character `c` to `text`.
#[verifier::external_body]
fn push_char(text: &mut String, c: char)
    ensures
        final(text)@ == old(text)@.push(c),
{
    text.push(c);
}

/// Gives `name` an upper-case first character and lower-case ones after it.
pub fn capitalize(name: &str) -> (out: String)
    ensures
        out@ == capitalized(name@),
{
    let len: usize = name.unicode_len();
    let mut out = String::new();
    let mut i: usize = 0;
    while i < len
        invariant
            len == name@.len(),
            i <= len,
            out@ == capitalized(name@).take(i as int),
        decreases len - i,
    {
        let c = name.get_char(i);
        let mapped = if i == 0 {
            to_ascii_upper(c)
        } else {
            to_ascii_lower(c)
        };
        push_char(&mut out, mapped);
        i += 1;
    }
    out
}

/// Appends `n` in decimal notation to `text`.
pub fn push_decimal(text: &mut String, n: u32)
    ensures
        final(text)@ == old(text)@ + decimal(n as nat),
    decreases n,
{
    if n >= 10 {
        push_decimal(text, n / 10);
    }
    let d: u8 = (n % 10) as u8;
    push_char(text, (48 + d) as char);
}

/// Capitalising a name gives the same text whatever the case of its letters
/// was.
pub proof fn lemma_capitalized_ignores_case(a: Seq<char>, b: Seq<char>)
    requires
        same_ignoring_case(a, b),
    ensures
        capitalized(a) == capitalized(b),
{
    assert forall|i: int| 0 <= i < a.len() implies capitalized(a)[i] == capitalized(b)[i] by {
        assert(ascii_lower(a[i]) == ascii_lower(b[i]));
    }
}

} // verus!
