//! Numbers, bytes and fields as text: decimal numbers, hexadecimal strings,
//! and fields that can be told apart in a text that joins them with colons.

use vstd::prelude::*;
use vstd::string::*;
use vstd::utf8::is_ascii_chars;

verus! {

/// The hexadecimal digit of `value`, in lower case. `value` is below 16.
pub open spec fn lower_hex_digit(value: int) -> char {
    "0123456789abcdef"@[value]
}

/// The hexadecimal digit of `value`, in upper case. `value` is below 16.
pub open spec fn upper_hex_digit(value: int) -> char {
    "0123456789ABCDEF"@[value]
}

/// The hexadecimal digit of `value`, in the case asked for.
pub open spec fn hex_digit(value: int, upper: bool) -> char {
    if upper {
        upper_hex_digit(value)
    } else {
        lower_hex_digit(value)
    }
}

/// `bytes` written as hexadecimal text: two digits for each byte, the high
/// half first.
pub open spec fn hex_text(bytes: Seq<u8>, upper: bool) -> Seq<char> {
    Seq::new(
        2 * bytes.len(),
        |i: int|
            if i % 2 == 0 {
                hex_digit(bytes[i / 2] as int / 16, upper)
            } else {
                hex_digit(bytes[i / 2] as int % 16, upper)
            },
    )
}

/// Hexadecimal text consists of ASCII characters only.
pub proof fn lemma_hex_text_is_ascii(bytes: Seq<u8>, upper: bool)
    ensures
        is_ascii_chars(hex_text(bytes, upper)),
        hex_text(bytes, upper).len() == 2 * bytes.len(),
{
    reveal_strlit("0123456789abcdef");
    reveal_strlit("0123456789ABCDEF");
    let text = hex_text(bytes, upper);
    assert forall|i: int| 0 <= i < text.len() implies '\0' <= #[trigger] text[i] <= '\u{7f}' by {
        let byte = bytes[i / 2] as int;
        assert(0 <= byte / 16 < 16 && 0 <= byte % 16 < 16);
    }
}

/// The decimal digit of `value`. `value` is below 10.
pub open spec fn decimal_digit(value: int) -> char {
    "0123456789"@[value]
}

/// `value` written as a decimal number, without leading zeros.
pub open spec fn decimal_text(value: nat) -> Seq<char>
    decreases value,
{
    if value < 10 {
        seq![decimal_digit(value as int)]
    } else {
        decimal_text(value / 10).push(decimal_digit((value % 10) as int))
    }
}

/// Appends the hexadecimal digit of `value` to `text`.
fn push_hex_digit(text: &mut String, value: u8, upper: bool)
    requires
        value < 16,
    ensures
        final(text)@ == old(text)@.push(hex_digit(value as int, upper)),
{
    let at: usize = value as usize;
    if upper {
        proof {
            reveal_strlit("0123456789ABCDEF");
        }
        text.append("0123456789ABCDEF".substring_ascii(at, at + 1));
    } else {
        proof {
            reveal_strlit("0123456789abcdef");
        }
        text.append("0123456789abcdef".substring_ascii(at, at + 1));
    }
}

/// Writes `bytes` as hexadecimal text, in upper or lower case.
pub fn to_hex(bytes: &[u8], upper: bool) -> (text: String)
    ensures
        text@ == hex_text(bytes@, upper),
{
    let mut text = String::new();
    let mut done: usize = 0;
    while done < bytes.len()
        invariant
            done <= bytes.len(),
            text@ == hex_text(bytes@.take(done as int), upper),
        decreases bytes.len() - done,
    {
        let byte = bytes[done];
        push_hex_digit(&mut text, byte / 16, upper);
        push_hex_digit(&mut text, byte % 16, upper);
        done = done + 1;
    }
    assert(bytes@.take(done as int) == bytes@);
    text
}

/// Appends `value`, written as a decimal number, to `text`.
pub fn push_decimal(text: &mut String, value: u32)
    ensures
        final(text)@ == old(text)@ + decimal_text(value as nat),
{
    push_count(text, value as u64);
}

/// Appends a count of things, written as a decimal number, to `text`.
pub fn push_count(text: &mut String, value: u64)
    ensures
        final(text)@ == old(text)@ + decimal_text(value as nat),
    decreases value,
{
    if value >= 10 {
        push_count(text, value / 10);
    }
    let at: usize = (value % 10) as usize;
    proof {
        reveal_strlit("0123456789");
    }
    text.append("0123456789".substring_ascii(at, at + 1));
}

/// Writes `value` as a decimal number.
pub fn to_decimal(value: u32) -> (text: String)
    ensures
        text@ == decimal_text(value as nat),
{
    let mut text = String::new();
    push_decimal(&mut text, value);
    text
}

/// One character of a field as it stands in a text whose fields are
/// separated by colons: a backslash is doubled, a colon is written as a
/// backslash and the letter `c`, and every other character stands for
/// itself.
pub open spec fn escaped_char(c: char) -> Seq<char> {
    if c == '\\' {
        seq!['\\', '\\']
    } else if c == ':' {
        seq!['\\', 'c']
    } else {
        seq![c]
    }
}

/// A field as it stands in a text whose fields are separated by colons:
/// each of its characters as [`escaped_char`] gives it. The result holds no
/// colon, and a field without colon and backslash stands for itself.
pub open spec fn escaped(text: Seq<char>) -> Seq<char>
    decreases text.len(),
{
    if text.len() == 0 {
        Seq::empty()
    } else {
        escaped_char(text[0]) + escaped(text.drop_first())
    }
}

/// Escaping a text character by character from its start comes to the same
/// as escaping it as a whole.
pub proof fn lemma_escaped_push(text: Seq<char>, c: char)
    ensures
        escaped(text.push(c)) == escaped(text) + escaped_char(c),
    decreases text.len(),
{
    if text.len() == 0 {
        let one = text.push(c);
        assert(one.drop_first() =~= Seq::<char>::empty());
        assert(escaped(one.drop_first()) =~= Seq::<char>::empty());
        assert(one[0] == c);
        assert(escaped(one) =~= escaped_char(c));
        assert(escaped(text) + escaped_char(c) =~= escaped_char(c));
    } else {
        lemma_escaped_push(text.drop_first(), c);
        assert(text.push(c).drop_first() =~= text.drop_first().push(c));
        assert(escaped(text.push(c)) =~= escaped(text) + escaped_char(c));
    }
}

/// An escaped field holds no colon.
pub proof fn lemma_escaped_has_no_colon(text: Seq<char>)
    ensures
        forall|i: int| 0 <= i < escaped(text).len() ==> escaped(text)[i] != ':',
    decreases text.len(),
{
    if text.len() > 0 {
        lemma_escaped_has_no_colon(text.drop_first());
        let head = escaped_char(text[0]);
        let rest = escaped(text.drop_first());
        assert forall|i: int| 0 <= i < escaped(text).len() implies escaped(text)[i] != ':' by {
            if i < head.len() {
                assert(escaped(text)[i] == head[i]);
            } else {
                assert(escaped(text)[i] == rest[i - head.len()]);
            }
        }
    }
}

/// A field that holds neither colon nor backslash stands for itself.
pub proof fn lemma_plain_is_escaped_as_itself(text: Seq<char>)
    requires
        forall|i: int| 0 <= i < text.len() ==> text[i] != ':' && text[i] != '\\',
    ensures
        escaped(text) == text,
    decreases text.len(),
{
    if text.len() > 0 {
        lemma_plain_is_escaped_as_itself(text.drop_first());
        assert(escaped(text) =~= text);
    }
}

/// Different fields are escaped differently.
pub proof fn lemma_escaped_is_one_to_one(a: Seq<char>, b: Seq<char>)
    requires
        escaped(a) == escaped(b),
    ensures
        a == b,
    decreases a.len(),
{
    if a.len() == 0 || b.len() == 0 {
        if a.len() > 0 {
            assert(escaped(a).len() >= escaped_char(a[0]).len());
        }
        if b.len() > 0 {
            assert(escaped(b).len() >= escaped_char(b[0]).len());
        }
        assert(a =~= b);
    } else {
        let head_a = escaped_char(a[0]);
        let head_b = escaped_char(b[0]);
        let rest_a = escaped(a.drop_first());
        let rest_b = escaped(b.drop_first());
        let whole = escaped(a);
        assert(whole == head_a + rest_a);
        assert(whole == head_b + rest_b);
        assert(whole[0] == head_a[0] && whole[0] == head_b[0]);
        if head_a.len() == 2 {
            assert(whole[1] == head_a[1]);
        }
        if head_b.len() == 2 {
            assert(whole[1] == head_b[1]);
        }
        assert(a[0] == b[0]);
        assert(rest_a =~= whole.subrange(head_a.len() as int, whole.len() as int));
        assert(rest_b =~= whole.subrange(head_b.len() as int, whole.len() as int));
        lemma_escaped_is_one_to_one(a.drop_first(), b.drop_first());
        assert(a =~= seq![a[0]] + a.drop_first());
        assert(b =~= seq![b[0]] + b.drop_first());
    }
}

/// A decimal number consists of digits: it is not empty and holds no colon.
pub proof fn lemma_decimal_is_digits(value: nat)
    ensures
        decimal_text(value).len() >= 1,
        forall|i: int|
            0 <= i < decimal_text(value).len() ==> '0' <= #[trigger] decimal_text(value)[i] <= '9',
    decreases value,
{
    reveal_strlit("0123456789");
    if value >= 10 {
        lemma_decimal_is_digits(value / 10);
    }
}

/// Different numbers are written differently.
pub proof fn lemma_decimal_is_one_to_one(a: nat, b: nat)
    requires
        decimal_text(a) == decimal_text(b),
    ensures
        a == b,
    decreases a,
{
    reveal_strlit("0123456789");
    lemma_decimal_is_digits(a / 10);
    lemma_decimal_is_digits(b / 10);
    if a < 10 && b < 10 {
        assert(decimal_text(a)[0] == decimal_digit(a as int));
        assert(decimal_text(b)[0] == decimal_digit(b as int));
    } else if a >= 10 && b >= 10 {
        let front_a = decimal_text(a / 10);
        let front_b = decimal_text(b / 10);
        assert(decimal_text(a).last() == decimal_digit((a % 10) as int));
        assert(decimal_text(b).last() == decimal_digit((b % 10) as int));
        assert(a % 10 == b % 10);
        assert(front_a =~= decimal_text(a).drop_last());
        assert(front_b =~= decimal_text(b).drop_last());
        lemma_decimal_is_one_to_one(a / 10, b / 10);
    } else if a < 10 {
        assert(decimal_text(a).len() == 1);
        assert(decimal_text(b).len() == decimal_text(b / 10).len() + 1);
    } else {
        assert(decimal_text(b).len() == 1);
        assert(decimal_text(a).len() == decimal_text(a / 10).len() + 1);
    }
}

/// Two texts that are equal, each a part without colon, a colon, and a
/// rest, are equal part by part.
pub proof fn lemma_split_at_colon(
    part: Seq<char>,
    rest: Seq<char>,
    other_part: Seq<char>,
    other_rest: Seq<char>,
)
    requires
        part + seq![':'] + rest == other_part + seq![':'] + other_rest,
        forall|i: int| 0 <= i < part.len() ==> part[i] != ':',
        forall|i: int| 0 <= i < other_part.len() ==> other_part[i] != ':',
    ensures
        part == other_part,
        rest == other_rest,
{
    let left = part + seq![':'] + rest;
    let right = other_part + seq![':'] + other_rest;
    if part.len() < other_part.len() {
        assert(left[part.len() as int] == ':');
        assert(right[part.len() as int] == other_part[part.len() as int]);
    }
    if other_part.len() < part.len() {
        assert(right[other_part.len() as int] == ':');
        assert(left[other_part.len() as int] == part[other_part.len() as int]);
    }
    assert(part =~= other_part) by {
        assert forall|i: int| 0 <= i < part.len() implies part[i] == other_part[i] by {
            assert(left[i] == part[i]);
            assert(right[i] == other_part[i]);
        }
    }
    assert(part.len() == other_part.len());
    assert(left.len() == part.len() + 1 + rest.len());
    assert(right.len() == other_part.len() + 1 + other_rest.len());
    assert(rest.len() == other_rest.len());
    assert(rest =~= other_rest) by {
        assert forall|i: int| 0 <= i < rest.len() implies rest[i] == other_rest[i] by {
            assert(left[part.len() + 1 + i] == rest[i]);
            assert(right[other_part.len() + 1 + i] == other_rest[i]);
        }
    }
}

/// Appends `field`, escaped, to `text`.
pub fn push_escaped(text: &mut String, field: &str)
    ensures
        final(text)@ == old(text)@ + escaped(field@),
{
    let ghost before = text@;
    let len = field.unicode_len();
    let mut at: usize = 0;
    assert(text@ =~= before + escaped(field@.take(0)));
    while at < len
        invariant
            at <= len,
            len == field@.len(),
            text@ == before + escaped(field@.take(at as int)),
        decreases len - at,
    {
        let c = field.get_char(at);
        proof {
            lemma_escaped_push(field@.take(at as int), c);
            assert(field@.take(at + 1) =~= field@.take(at as int).push(c));
            reveal_strlit("\\\\");
            reveal_strlit("\\c");
        }
        if c == '\\' {
            text.append("\\\\");
            assert("\\\\"@ =~= escaped_char(c));
        } else if c == ':' {
            text.append("\\c");
            assert("\\c"@ =~= escaped_char(c));
        } else {
            text.append(field.substring_char(at, at + 1));
            assert(field@.subrange(at as int, at + 1) =~= escaped_char(c));
        }
        assert(text@ =~= before + escaped(field@.take(at + 1)));
        at = at + 1;
    }
    assert(field@.take(len as int) == field@);
}

/// Writes `field`, escaped.
pub fn to_escaped(field: &str) -> (text: String)
    ensures
        text@ == escaped(field@),
{
    let mut text = String::new();
    push_escaped(&mut text, field);
    assert(text@ =~= escaped(field@));
    text
}

} // verus!
