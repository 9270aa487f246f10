//! Text helpers over the standard string type.

use vstd::prelude::*;
use vstd::string::{StrSliceExecFns, StringExecFns};

verus! {

/// Whether two pieces of text are the same.
pub fn same_text(a: &str, b: &str) -> (same: bool)
    ensures
        same == (a@ == b@),
{
    let left: String = a.to_owned();
    let right: String = b.to_owned();
    left == right
}

/// Whether a character is white space, as `char::is_whitespace` says.
pub uninterp spec fn whitespace(c: char) -> bool;

/// `char::is_whitespace`: whether the character has the Unicode property `White_Space`.
/// Which characters those are is not stated.
pub assume_specification[ char::is_whitespace ](c: char) -> (r: bool)
    ensures
        r == whitespace(c),
;

/// The text in lower case, as `str::to_lowercase` gives it.
pub uninterp spec fn lowercase(text: Seq<char>) -> Seq<char>;

/// `str::to_lowercase`: the text with each character mapped by the Unicode property
/// `Lowercase`. The mapping is not stated.
pub assume_specification[ str::to_lowercase ](text: &str) -> (r: String)
    ensures
        r@ == lowercase(text@),
;

/// `part` is in `text`, starting at `at`.
pub open spec fn occurs_at(text: Seq<char>, part: Seq<char>, at: int) -> bool {
    0 <= at && at + part.len() <= text.len() && text.subrange(at, at + part.len()) == part
}

pub open spec fn occurs_in(text: Seq<char>, part: Seq<char>) -> bool {
    exists|at: int| occurs_at(text, part, at)
}

/// `str::contains` with a text to look for: whether it occurs anywhere.
#[verifier::external_body]
pub(crate) fn contains(text: &str, part: &str) -> (r: bool)
    ensures
        r == occurs_in(text@, part@),
{
    text.contains(part)
}

/// `String::push`: appends one character.
#[verifier::external_body]
pub(crate) fn push(text: &mut String, c: char)
    ensures
        final(text)@ == old(text)@.push(c),
{
    text.push(c)
}

/// The text in quotes, with escapes, as the standard library shows it to a programmer.
pub uninterp spec fn quoted_text(text: Seq<char>) -> Seq<char>;

/// `format!` with `{:?}` and a text: the text in double quotes. What is escaped in it is
/// not stated.
#[verifier::external_body]
pub(crate) fn quoted(text: &str) -> (r: String)
    ensures
        r@ == quoted_text(text@),
{
    format!("{:?}", text)
}

/// The text without the white space at its start.
pub open spec fn trimmed_start(text: Seq<char>) -> Seq<char>
    decreases text.len(),
{
    if text.len() > 0 && whitespace(text[0]) {
        trimmed_start(text.drop_first())
    } else {
        text
    }
}

/// The text without the white space at its end.
pub open spec fn trimmed_end(text: Seq<char>) -> Seq<char>
    decreases text.len(),
{
    if text.len() > 0 && whitespace(text.last()) {
        trimmed_end(text.drop_last())
    } else {
        text
    }
}

/// The text without white space at either end.
pub open spec fn trimmed(text: Seq<char>) -> Seq<char> {
    trimmed_end(trimmed_start(text))
}

/// The text without white space at either end.
pub fn trim(text: &str) -> (r: String)
    ensures
        r@ == trimmed(text@),
{
    let length: usize = text.unicode_len();
    let mut start: usize = 0;
    assert(text@.subrange(0, length as int) =~= text@);
    while start < length && text.get_char(start).is_whitespace()
        invariant
            length == text@.len(),
            start <= length,
            trimmed_start(text@) == trimmed_start(text@.subrange(start as int, length as int)),
        decreases length - start,
    {
        proof {
            let rest = text@.subrange(start as int, length as int);
            assert(rest[0] == text@[start as int]);
            assert(rest.drop_first() =~= text@.subrange(start as int + 1, length as int));
        }
        start += 1;
    }
    proof {
        let rest = text@.subrange(start as int, length as int);
        if start < length {
            assert(rest[0] == text@[start as int]);
        }
        assert(trimmed_start(text@) == rest);
    }
    let ghost rest = text@.subrange(start as int, length as int);
    let mut end: usize = length;
    while end > start && text.get_char(end - 1).is_whitespace()
        invariant
            length == text@.len(),
            start <= end <= length,
            rest == text@.subrange(start as int, length as int),
            trimmed_end(rest) == trimmed_end(text@.subrange(start as int, end as int)),
        decreases end,
    {
        proof {
            let kept = text@.subrange(start as int, end as int);
            assert(kept.last() == text@[end as int - 1]);
            assert(kept.drop_last() =~= text@.subrange(start as int, end as int - 1));
        }
        end -= 1;
    }
    proof {
        let kept = text@.subrange(start as int, end as int);
        if end > start {
            assert(kept.last() == text@[end as int - 1]);
        }
    }
    text.substring_char(start, end).to_owned()
}

/// What follows the prefix.
pub open spec fn after_prefix(text: Seq<char>, prefix: Seq<char>) -> Option<Seq<char>> {
    if occurs_at(text, prefix, 0) {
        Some(text.skip(prefix.len() as int))
    } else {
        None
    }
}

/// What follows the prefix, if the text starts with it.
pub fn strip_prefix(text: &str, prefix: &str) -> (rest: Option<String>)
    ensures
        crate::steps::text_of(rest) == after_prefix(text@, prefix@),
{
    let length: usize = text.unicode_len();
    let size: usize = prefix.unicode_len();
    if size > length {
        return None;
    }
    let head = text.substring_char(0, size);
    if !same_text(head, prefix) {
        return None;
    }
    assert(text@.subrange(size as int, length as int) =~= text@.skip(size as int));
    Some(text.substring_char(size, length).to_owned())
}

/// The digit of a number below ten.
pub open spec fn digit(n: nat) -> char {
    (48 + n) as char
}

/// A number in decimal digits.
pub open spec fn decimal_of(n: nat) -> Seq<char>
    decreases n,
{
    if n < 10 {
        seq![digit(n)]
    } else {
        decimal_of(n / 10).push(digit(n % 10))
    }
}

/// A number in decimal digits.
pub fn decimal(n: u128) -> (r: String)
    ensures
        r@ == decimal_of(n as nat),
    decreases n,
{
    if n < 10 {
        let mut text = String::new();
        push(&mut text, (48u8 + n as u8) as char);
        assert(text@ =~= seq![digit(n as nat)]);
        text
    } else {
        let mut text = decimal(n / 10);
        push(&mut text, (48u8 + (n % 10) as u8) as char);
        text
    }
}

/// The characters of a decimal number are digits.
pub proof fn decimal_has_digits(n: nat)
    ensures
        decimal_of(n).len() > 0,
        forall|i: int| 0 <= i < decimal_of(n).len() ==> '0' <= #[trigger] decimal_of(n)[i] <= '9',
    decreases n,
{
    if n >= 10 {
        decimal_has_digits(n / 10);
    }
}

/// Different numbers have different digits.
pub proof fn decimal_is_injective(m: nat, n: nat)
    requires
        decimal_of(m) == decimal_of(n),
    ensures
        m == n,
    decreases m,
{
    let a = decimal_of(m);
    let b = decimal_of(n);
    assert(a.last() == b.last());
    assert(digit(m % 10) as int == 48 + m % 10);
    assert(digit(n % 10) as int == 48 + n % 10);
    assert(a.last() == digit(m % 10));
    assert(b.last() == digit(n % 10));
    if m < 10 && n >= 10 {
        decimal_has_digits(n / 10);
        assert(b.len() == decimal_of(n / 10).len() + 1);
    } else if m >= 10 && n < 10 {
        decimal_has_digits(m / 10);
        assert(a.len() == decimal_of(m / 10).len() + 1);
    } else if m >= 10 && n >= 10 {
        assert(a.drop_last() =~= decimal_of(m / 10));
        assert(b.drop_last() =~= decimal_of(n / 10));
        decimal_is_injective(m / 10, n / 10);
    }
}

/// Two pieces of text in a row.
pub fn joined(first: &str, second: &str) -> (r: String)
    ensures
        r@ == first@ + second@,
{
    first.to_owned().concat(second)
}

/// The bytes that a character takes in UTF-8.
pub open spec fn utf8_size(c: char) -> nat {
    if (c as u32) < 0x80 {
        1
    } else if (c as u32) < 0x800 {
        2
    } else if (c as u32) < 0x10000 {
        3
    } else {
        4
    }
}

/// The bytes that a text takes in UTF-8.
pub open spec fn text_size(text: Seq<char>) -> nat
    decreases text.len(),
{
    if text.len() == 0 {
        0
    } else {
        text_size(text.drop_last()) + utf8_size(text.last())
    }
}

/// The bytes that a character takes in UTF-8.
pub fn char_size(c: char) -> (r: usize)
    ensures
        r == utf8_size(c),
        1 <= r <= 4,
{
    let code: u32 = c as u32;
    if code < 0x80 {
        1
    } else if code < 0x800 {
        2
    } else if code < 0x10000 {
        3
    } else {
        4
    }
}

/// A longer text takes more bytes.
pub proof fn text_size_grows(text: Seq<char>, i: int, j: int)
    requires
        0 <= i <= j <= text.len(),
    ensures
        text_size(text.take(i)) + (j - i) <= text_size(text.take(j)),
    decreases j - i,
{
    if i < j {
        text_size_grows(text, i, j - 1);
        assert(text.take(j).drop_last() =~= text.take(j - 1));
    }
}

/// `a` comes before `b` in a dictionary: by the numbers of their characters.
pub open spec fn text_before(a: Seq<char>, b: Seq<char>) -> bool
    decreases a.len(),
{
    if b.len() == 0 {
        false
    } else if a.len() == 0 {
        true
    } else if a[0] != b[0] {
        a[0] < b[0]
    } else {
        text_before(a.drop_first(), b.drop_first())
    }
}

/// Whether a text comes before another.
pub fn precedes(a: &str, b: &str) -> (r: bool)
    ensures
        r == text_before(a@, b@),
{
    let left: usize = a.unicode_len();
    let right: usize = b.unicode_len();
    let mut index: usize = 0;
    assert(a@.skip(0) =~= a@);
    assert(b@.skip(0) =~= b@);
    while index < left && index < right
        invariant
            left == a@.len(),
            right == b@.len(),
            index <= left,
            index <= right,
            text_before(a@, b@) == text_before(a@.skip(index as int), b@.skip(index as int)),
        decreases left - index,
    {
        proof {
            let x = a@.skip(index as int);
            let y = b@.skip(index as int);
            assert(x[0] == a@[index as int]);
            assert(y[0] == b@[index as int]);
            assert(x.drop_first() =~= a@.skip(index as int + 1));
            assert(y.drop_first() =~= b@.skip(index as int + 1));
        }
        let c: char = a.get_char(index);
        let d: char = b.get_char(index);
        if c != d {
            return c < d;
        }
        index += 1;
    }
    index < right
}

/// The order of texts is transitive.
pub proof fn text_order_is_transitive(a: Seq<char>, b: Seq<char>, c: Seq<char>)
    requires
        text_before(a, b),
        text_before(b, c),
    ensures
        text_before(a, c),
    decreases a.len(),
{
    if a.len() > 0 && a[0] == b[0] && b[0] == c[0] {
        text_order_is_transitive(a.drop_first(), b.drop_first(), c.drop_first());
    }
}

proof fn text_order_is_strict(a: Seq<char>)
    ensures
        !text_before(a, a),
    decreases a.len(),
{
    if a.len() > 0 {
        text_order_is_strict(a.drop_first());
    }
}

/// Of two different texts one comes before the other.
pub proof fn texts_are_ordered(a: Seq<char>, b: Seq<char>)
    ensures
        a != b ==> text_before(a, b) != text_before(b, a),
        !text_before(a, a),
    decreases a.len(),
{
    text_order_is_strict(a);
    if a.len() > 0 && b.len() > 0 && a[0] == b[0] {
        texts_are_ordered(a.drop_first(), b.drop_first());
        if a.drop_first() == b.drop_first() {
            assert(a =~= seq![a[0]] + a.drop_first());
            assert(b =~= seq![b[0]] + b.drop_first());
        }
    } else if a.len() == 0 && b.len() == 0 {
        assert(a =~= b);
    }
}

/// What is trimmed off is white space, and what is left neither starts nor ends with any.
proof fn lemma_trimmed_start(text: Seq<char>) -> (cut: int)
    ensures
        0 <= cut <= text.len(),
        trimmed_start(text) == text.skip(cut),
        forall|i: int| 0 <= i < cut ==> whitespace(#[trigger] text[i]),
        cut < text.len() ==> !whitespace(text[cut]),
    decreases text.len(),
{
    if text.len() > 0 && whitespace(text[0]) {
        let rest = lemma_trimmed_start(text.drop_first());
        assert(text.drop_first().skip(rest) =~= text.skip(rest + 1));
        assert forall|i: int| 0 <= i < rest + 1 implies whitespace(#[trigger] text[i]) by {
            if i > 0 {
                assert(whitespace(text.drop_first()[i - 1]));
            }
        }
        rest + 1
    } else {
        assert(text.skip(0) =~= text);
        0
    }
}

proof fn lemma_trimmed_end(text: Seq<char>) -> (left: int)
    ensures
        0 <= left <= text.len(),
        trimmed_end(text) == text.take(left),
        forall|i: int| left <= i < text.len() ==> whitespace(#[trigger] text[i]),
        left > 0 ==> !whitespace(text[left - 1]),
    decreases text.len(),
{
    if text.len() > 0 && whitespace(text.last()) {
        let left = lemma_trimmed_end(text.drop_last());
        assert(text.drop_last().take(left) =~= text.take(left));
        assert forall|i: int| left <= i < text.len() implies whitespace(#[trigger] text[i]) by {
            if i < text.len() - 1 {
                assert(whitespace(text.drop_last()[i]));
            }
        }
        left
    } else {
        assert(text.take(text.len() as int) =~= text);
        text.len() as int
    }
}

/// The text between white space is what is left of it: where it begins and ends with none,
/// that is all of it.
pub proof fn trimming_takes_the_white_space_off(before: Seq<char>, text: Seq<char>, after: Seq<char>)
    requires
        forall|i: int| 0 <= i < before.len() ==> whitespace(#[trigger] before[i]),
        forall|i: int| 0 <= i < after.len() ==> whitespace(#[trigger] after[i]),
        text.len() > 0 ==> !whitespace(text[0]) && !whitespace(text.last()),
    ensures
        trimmed(before + text + after) == text,
{
    let whole = before + text + after;
    let cut = lemma_trimmed_start(whole);
    let rest = whole.skip(cut);
    let left = lemma_trimmed_end(rest);
    if text.len() > 0 {
        let first = before.len() as int;
        let last = before.len() + text.len() - 1;
        assert(whole[first] == text[0]);
        assert(whole[last] == text.last());
        if cut > first {
            assert(whitespace(whole[first]));
        }
        if cut < first {
            assert(whole[cut] == before[cut]);
        }
        assert(cut == first);
        assert(rest[text.len() - 1] == text.last());
        if left < text.len() {
            assert(whitespace(rest[text.len() - 1]));
        }
        if left > text.len() {
            assert(rest[left - 1] == after[left - 1 - text.len()]);
        }
        assert(rest.take(left) =~= text);
    } else {
        if cut < whole.len() {
            if cut < before.len() {
                assert(whole[cut] == before[cut]);
            } else {
                assert(whole[cut] == after[cut - before.len()]);
            }
        }
        assert(rest.take(left) =~= text);
    }
}

/// What follows a prefix is the rest, and a text that is not the prefix and more has none.
pub proof fn prefixes_come_off(text: Seq<char>, prefix: Seq<char>, rest: Seq<char>)
    ensures
        after_prefix(prefix + rest, prefix) == Some(rest),
        after_prefix(text, prefix) == Some(rest) ==> text == prefix + rest,
{
    assert((prefix + rest).subrange(0, prefix.len() as int) =~= prefix);
    assert((prefix + rest).skip(prefix.len() as int) =~= rest);
    if after_prefix(text, prefix) == Some(rest) {
        assert(text =~= text.subrange(0, prefix.len() as int) + text.skip(prefix.len() as int));
    }
}

/// The last digit of a number tells what ten leaves of it, and those before it are the digits
/// of the tenth; a number below ten has one.
pub proof fn digits_count_in_tens(n: nat)
    ensures
        decimal_of(n).last() as nat == 48 + n % 10,
        n < 10 ==> decimal_of(n).len() == 1,
        n >= 10 ==> decimal_of(n).drop_last() == decimal_of(n / 10),
{
    if n >= 10 {
        assert(decimal_of(n).drop_last() =~= decimal_of(n / 10));
    }
}

/// A character takes as many bytes as its number needs, at seven, eleven, sixteen and
/// twenty-one bits.
pub proof fn larger_characters_take_more_bytes(c: char)
    ensures
        utf8_size(c) <= 1 <==> c as u32 <= 0x7f,
        utf8_size(c) <= 2 <==> c as u32 <= 0x7ff,
        utf8_size(c) <= 3 <==> c as u32 <= 0xffff,
        1 <= utf8_size(c) <= 4,
{
}

/// The bytes of two texts in a row are those of both.
pub proof fn texts_in_a_row_take_the_bytes_of_both(a: Seq<char>, b: Seq<char>)
    ensures
        text_size(a + b) == text_size(a) + text_size(b),
    decreases b.len(),
{
    if b.len() == 0 {
        assert(a + b =~= a);
    } else {
        assert((a + b).drop_last() =~= a + b.drop_last());
        texts_in_a_row_take_the_bytes_of_both(a, b.drop_last());
    }
}

/// Where two texts first differ, the one with the smaller character there comes first; and a
/// text comes before all that go on from it.
pub proof fn texts_are_ordered_where_they_differ(a: Seq<char>, b: Seq<char>, i: int)
    requires
        0 <= i <= a.len(),
        i < b.len(),
        forall|j: int| 0 <= j < i ==> a[j] == #[trigger] b[j],
        i == a.len() || a[i] != b[i],
    ensures
        text_before(a, b) <==> i == a.len() || a[i] < b[i],
    decreases i,
{
    if i > 0 {
        assert(a[0] == b[0]);
        assert forall|j: int| 0 <= j < i - 1 implies a.drop_first()[j] == #[trigger]
            b.drop_first()[j] by {
            assert(a[j + 1] == b[j + 1]);
        }
        texts_are_ordered_where_they_differ(a.drop_first(), b.drop_first(), i - 1);
    }
}

} // verus!
