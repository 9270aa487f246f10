//! What the system tells of processes.

use vstd::prelude::*;
use vstd::string::StrSliceExecFns;
use vstd::utf8::{decode_utf8, encode_scalar, encode_utf8, valid_utf8};

use crate::steps::text_of;
use crate::text::{after_prefix, strip_prefix, trim, trimmed};

verus! {

/// How many processes are looked at for one answer.
pub const MAX_ANCESTORS: u32 = 32;

/// `std::str::from_utf8`: the text that the bytes encode, if they are valid UTF-8.
#[verifier::external_body]
fn from_utf8(bytes: &Vec<u8>) -> (text: Option<String>)
    ensures
        match text {
            Some(text) => valid_utf8(bytes@) && text@ == decode_utf8(bytes@),
            None => !valid_utf8(bytes@),
        },
{
    std::str::from_utf8(bytes).ok().map(str::to_string)
}

/// Where the entry that starts at `start` ends: at the next zero byte, or at the end.
pub open spec fn entry_end(bytes: Seq<u8>, start: int) -> int
    decreases bytes.len() - start,
{
    if start >= bytes.len() || bytes[start] == 0 {
        start
    } else {
        entry_end(bytes, start + 1)
    }
}

/// The value that an entry gives, if it is text that starts with the prefix.
pub open spec fn entry_value(entry: Seq<u8>, prefix: Seq<char>) -> Option<Seq<char>> {
    if valid_utf8(entry) {
        after_prefix(decode_utf8(entry), prefix)
    } else {
        None
    }
}

proof fn entry_ends_later(bytes: Seq<u8>, start: int)
    requires
        0 <= start <= bytes.len(),
    ensures
        start <= entry_end(bytes, start) <= bytes.len(),
        entry_end(bytes, start) < bytes.len() ==> bytes[entry_end(bytes, start)] == 0,
    decreases bytes.len() - start,
{
    if start < bytes.len() && bytes[start] != 0 {
        entry_ends_later(bytes, start + 1);
    }
}

/// The value that the first entry from `start` on gives.
pub open spec fn value_from(bytes: Seq<u8>, start: int, prefix: Seq<char>) -> Option<Seq<char>>
    decreases bytes.len() - start,
    when 0 <= start <= bytes.len()
    via value_from_decreases
{
    let end = entry_end(bytes, start);
    match entry_value(bytes.subrange(start, end), prefix) {
        Some(value) => Some(value),
        None => if end < bytes.len() {
            value_from(bytes, end + 1, prefix)
        } else {
            None
        },
    }
}

#[via_fn]
proof fn value_from_decreases(bytes: Seq<u8>, start: int, prefix: Seq<char>) {
    entry_ends_later(bytes, start);
}

/// The value of a variable in the environment of a process, which is a list of entries
/// with a zero byte after each. Entries that are not text are passed over.
pub open spec fn environment_value(environment: Seq<u8>, name: Seq<char>) -> Option<Seq<char>> {
    value_from(environment, 0, name + "="@)
}

/// The value of a variable in the environment of a process.
pub fn process_environment_value(environment: &Vec<u8>, name: &str) -> (value: Option<String>)
    ensures
        text_of(value) == environment_value(environment@, name@),
{
    let prefix = crate::text::joined(name, "=");
    let mut entry: Vec<u8> = Vec::new();
    let ghost mut start: int = 0;
    let mut index: usize = 0;
    assert(environment@.subrange(0, 0) =~= entry@);
    loop
        invariant
            prefix@ == name@ + "="@,
            0 <= start <= index <= environment@.len(),
            entry@ == environment@.subrange(start, index as int),
            entry_end(environment@, start) == entry_end(environment@, index as int),
            environment_value(environment@, name@) == value_from(environment@, start, prefix@),
        decreases environment@.len() - index,
    {
        if index < environment.len() && environment[index] != 0 {
            entry.push(environment[index]);
            proof {
                assert(entry@ =~= environment@.subrange(start, index as int + 1));
            }
            index += 1;
            continue ;
        }
        if let Some(text) = from_utf8(&entry) {
            let value = strip_prefix(text.as_str(), prefix.as_str());
            if value.is_some() {
                return value;
            }
        }
        if index == environment.len() {
            return None;
        }
        entry = Vec::new();
        index += 1;
        proof {
            start = index as int;
            assert(environment@.subrange(start, start) =~= entry@);
        }
    }
}

/// A number in decimal digits, without a bound.
pub open spec fn number_of(digits: Seq<char>) -> nat
    decreases digits.len(),
{
    if digits.len() == 0 {
        0
    } else {
        number_of(digits.drop_last()) * 10 + (digits.last() as nat - 48) as nat
    }
}

pub open spec fn all_digits(text: Seq<char>) -> bool {
    forall|i: int| 0 <= i < text.len() ==> '0' <= #[trigger] text[i] <= '9'
}

/// The digits of a number, after a plus sign if there is one.
pub open spec fn unsigned_part(text: Seq<char>) -> Seq<char> {
    if text.len() > 0 && text[0] == '+' {
        text.drop_first()
    } else {
        text
    }
}

/// The number that a text gives, if it is one of 32 bits.
pub open spec fn parsed(text: Seq<char>) -> Option<u32> {
    let digits = unsigned_part(text);
    if digits.len() > 0 && all_digits(digits) && number_of(digits) <= u32::MAX {
        Some(number_of(digits) as u32)
    } else {
        None
    }
}

proof fn numbers_grow(digits: Seq<char>, i: int)
    requires
        0 <= i <= digits.len(),
    ensures
        number_of(digits.take(i)) <= number_of(digits),
    decreases digits.len() - i,
{
    if i < digits.len() {
        numbers_grow(digits, i + 1);
        assert(digits.take(i + 1).drop_last() =~= digits.take(i));
    } else {
        assert(digits.take(i) =~= digits);
    }
}

/// The number that a text gives, if it is one of 32 bits.
pub fn parse_u32(text: &str) -> (number: Option<u32>)
    ensures
        number == parsed(text@),
{
    let length: usize = text.unicode_len();
    let start: usize = if length > 0 && text.get_char(0) == '+' {
        1
    } else {
        0
    };
    let ghost digits = unsigned_part(text@);
    assert(digits =~= text@.skip(start as int));
    if start == length {
        return None;
    }
    let mut total: u64 = 0;
    let mut index: usize = start;
    assert(digits.take(0) =~= Seq::<char>::empty());
    while index < length
        invariant
            length == text@.len(),
            start <= index <= length,
            digits == unsigned_part(text@),
            digits == text@.skip(start as int),
            total == number_of(digits.take(index - start)),
            total <= u32::MAX,
            forall|i: int| 0 <= i < index - start ==> '0' <= #[trigger] digits[i] <= '9',
        decreases length - index,
    {
        let c: char = text.get_char(index);
        assert(c == digits[index - start]);
        if c < '0' || c > '9' {
            return None;
        }
        let value: u64 = (c as u32 - 48) as u64;
        total = total * 10 + value;
        proof {
            let longer = digits.take(index - start + 1);
            assert(longer.drop_last() =~= digits.take(index - start));
            assert(longer.last() == c);
            assert(total == number_of(longer));
            numbers_grow(digits, index - start + 1);
        }
        if total > 0xffff_ffff {
            return None;
        }
        index += 1;
    }
    assert(digits.take(index - start) =~= digits);
    Some(total as u32)
}

/// A line without the carriage return at its end.
pub open spec fn line_text(line: Seq<char>) -> Seq<char> {
    if line.len() > 0 && line.last() == '\r' {
        line.drop_last()
    } else {
        line
    }
}

/// The parent that one line of a status names.
pub open spec fn parent_in(line: Seq<char>) -> Option<u32> {
    match after_prefix(line, "PPid:"@) {
        Some(rest) => parsed(trimmed(rest)),
        None => None,
    }
}

/// The parent that the first line to name one names, where `line` is the part of a line
/// that has been read before the text.
pub open spec fn parent_from(line: Seq<char>, text: Seq<char>) -> Option<u32>
    decreases text.len(),
{
    if text.len() == 0 {
        parent_in(line)
    } else if text[0] == '\n' {
        match parent_in(line_text(line)) {
            Some(parent) => Some(parent),
            None => parent_from(Seq::empty(), text.drop_first()),
        }
    } else {
        parent_from(line.push(text[0]), text.drop_first())
    }
}

fn parent_of_line(line: &str) -> (parent: Option<u32>)
    ensures
        parent == parent_in(line@),
{
    match strip_prefix(line, "PPid:") {
        Some(rest) => parse_u32(trim(rest.as_str()).as_str()),
        None => None,
    }
}

/// The parent of a process, as its status tells.
pub fn process_parent(status: &str) -> (parent: Option<u32>)
    ensures
        parent == parent_from(Seq::empty(), status@),
{
    let length: usize = status.unicode_len();
    let mut start: usize = 0;
    let mut index: usize = 0;
    assert(status@.subrange(0, 0) =~= Seq::<char>::empty());
    assert(status@.skip(0) =~= status@);
    while index < length
        invariant
            length == status@.len(),
            0 <= start <= index <= length,
            parent_from(Seq::empty(), status@) == parent_from(
                status@.subrange(start as int, index as int),
                status@.skip(index as int),
            ),
        decreases length - index,
    {
        proof {
            let line = status@.subrange(start as int, index as int);
            let rest = status@.skip(index as int);
            assert(rest[0] == status@[index as int]);
            assert(rest.drop_first() =~= status@.skip(index as int + 1));
            assert(line.push(rest[0]) =~= status@.subrange(start as int, index as int + 1));
        }
        if status.get_char(index) == '\n' {
            let end: usize = if index > start && status.get_char(index - 1) == '\r' {
                index - 1
            } else {
                index
            };
            proof {
                let line = status@.subrange(start as int, index as int);
                if index > start {
                    assert(line.last() == status@[index - 1]);
                }
                assert(line_text(line) =~= status@.subrange(start as int, end as int));
            }
            let parent = parent_of_line(status.substring_char(start, end));
            if parent.is_some() {
                return parent;
            }
            start = index + 1;
            assert(status@.subrange(start as int, start as int) =~= Seq::<char>::empty());
        }
        index += 1;
    }
    assert(status@.skip(index as int) =~= Seq::<char>::empty());
    parent_of_line(status.substring_char(start, length))
}

/// The search for a process that was marked when it was started: the process itself and
/// what started it are looked at in turn.
#[derive(Clone, Copy, Debug, PartialEq, Eq, Structural)]
pub struct AncestorSearch {
    pub pid: u32,
    pub remaining: u32,
}

/// What the system tells of each process.
pub struct ProcessFacts {
    pub mark: Option<Seq<char>>,
    pub parent: Option<u32>,
}

impl AncestorSearch {
    pub fn new(pid: u32) -> (search: Self)
        ensures
            search.pid == pid,
            search.remaining == MAX_ANCESTORS,
    {
        AncestorSearch { pid, remaining: MAX_ANCESTORS }
    }

    /// The process that is to be looked at.
    pub open spec fn subject(self) -> Option<u32> {
        if self.remaining > 0 && self.pid != 0 {
            Some(self.pid)
        } else {
            None
        }
    }

    /// The search after a process that is not marked.
    pub open spec fn after(self, parent: Option<u32>) -> AncestorSearch {
        match parent {
            Some(parent) if parent != self.pid && self.remaining > 0 => AncestorSearch {
                pid: parent,
                remaining: (self.remaining - 1) as u32,
            },
            _ => AncestorSearch { pid: self.pid, remaining: 0 },
        }
    }

    pub fn inspect(&self) -> (pid: Option<u32>)
        ensures
            pid == self.subject(),
    {
        if self.remaining > 0 && self.pid != 0 {
            Some(self.pid)
        } else {
            None
        }
    }

    /// The process is not marked: its parent is next. A process without a parent, or that
    /// is its own, ends the search.
    pub fn advance(&mut self, parent: Option<u32>)
        ensures
            *final(self) == old(self).after(parent),
    {
        match parent {
            Some(parent) => {
                if parent != self.pid && self.remaining > 0 {
                    self.pid = parent;
                    self.remaining = self.remaining - 1;
                } else {
                    self.remaining = 0;
                }
            },
            None => {
                self.remaining = 0;
            },
        }
    }
}

/// The mark that a search finds.
pub open spec fn found_mark(search: AncestorSearch, facts: spec_fn(u32) -> ProcessFacts) -> Option<
    Seq<char>,
>
    decreases search.remaining,
{
    match search.subject() {
        Some(pid) => match facts(pid).mark {
            Some(mark) => Some(mark),
            None => found_mark(search.after(facts(pid).parent), facts),
        },
        None => None,
    }
}

/// A mark that is found is that of some process that was looked at.
pub proof fn marks_are_not_invented(
    search: AncestorSearch,
    facts: spec_fn(u32) -> ProcessFacts,
)
    requires
        found_mark(search, facts) is Some,
    ensures
        exists|pid: u32| (#[trigger] facts(pid)).mark == found_mark(search, facts),
    decreases search.remaining,
{
    let pid = search.pid;
    match facts(pid).mark {
        Some(mark) => {
            assert(facts(pid).mark == found_mark(search, facts));
        },
        None => {
            marks_are_not_invented(search.after(facts(pid).parent), facts);
        },
    }
}

/// A process that is marked is found by its own mark, whatever started it.
pub proof fn own_mark_wins(pid: u32, facts: spec_fn(u32) -> ProcessFacts)
    requires
        pid != 0,
        facts(pid).mark is Some,
    ensures
        found_mark(AncestorSearch { pid, remaining: MAX_ANCESTORS }, facts) == facts(pid).mark,
{
}

proof fn scalars_hold_no_zero(c: char)
    requires
        c != '\0',
    ensures
        forall|i: int|
            0 <= i < encode_scalar(c as u32).len() ==> #[trigger] encode_scalar(c as u32)[i] != 0,
{
    let v = c as u32;
    assert(v != 0);
    assert(v <= 0x7f && v != 0 ==> (v & 0x7F) as u8 != 0) by (bit_vector);
    assert(0xC0 | ((v >> 6) & 0x1F) as u8 != 0) by (bit_vector);
    assert(0xE0 | ((v >> 12) & 0x0F) as u8 != 0) by (bit_vector);
    assert(0xF0 | ((v >> 18) & 0x7) as u8 != 0) by (bit_vector);
    assert(0x80 | (v & 0x3F) as u8 != 0) by (bit_vector);
    assert(0x80 | ((v >> 6) & 0x3F) as u8 != 0) by (bit_vector);
    assert(0x80 | ((v >> 12) & 0x3F) as u8 != 0) by (bit_vector);
}

proof fn text_holds_no_zero(text: Seq<char>)
    requires
        forall|i: int| 0 <= i < text.len() ==> #[trigger] text[i] != '\0',
    ensures
        forall|i: int| 0 <= i < encode_utf8(text).len() ==> #[trigger] encode_utf8(text)[i] != 0,
    decreases text.len(),
{
    if text.len() > 0 {
        scalars_hold_no_zero(text[0]);
        text_holds_no_zero(text.drop_first());
        let head = encode_scalar(text[0] as u32);
        let rest = encode_utf8(text.drop_first());
        assert(encode_utf8(text) == head + rest);
    }
}

proof fn entry_is_whole(bytes: Seq<u8>, start: int, end: int)
    requires
        0 <= start <= end <= bytes.len(),
        forall|i: int| start <= i < end ==> #[trigger] bytes[i] != 0,
        end < bytes.len() ==> bytes[end] == 0,
    ensures
        entry_end(bytes, start) == end,
    decreases end - start,
{
    if start < end {
        entry_is_whole(bytes, start + 1, end);
    }
}

/// What is put into an environment is read back: an entry that names a variable and its
/// value, before which the variable does not occur, gives the value.
pub proof fn environment_is_read_back(name: Seq<char>, value: Seq<char>, rest: Seq<u8>)
    requires
        forall|i: int| 0 <= i < name.len() ==> #[trigger] name[i] != '\0',
        forall|i: int| 0 <= i < value.len() ==> #[trigger] value[i] != '\0',
    ensures
        environment_value(encode_utf8(name + "="@ + value) + seq![0u8] + rest, name) == Some(value),
{
    reveal_strlit("=");
    let prefix = name + "="@;
    let text = prefix + value;
    let entry = encode_utf8(text);
    let bytes = entry + seq![0u8] + rest;
    text_holds_no_zero(text);
    assert forall|i: int| 0 <= i < entry.len() implies #[trigger] bytes[i] != 0 by {
        assert(bytes[i] == entry[i]);
    }
    assert(bytes[entry.len() as int] == 0);
    entry_is_whole(bytes, 0, entry.len() as int);
    assert(bytes.subrange(0, entry.len() as int) =~= entry);
    vstd::utf8::encode_utf8_valid_utf8(text);
    vstd::utf8::encode_utf8_decode_utf8(text);
    assert(text.subrange(0, prefix.len() as int) =~= prefix);
    assert(text.skip(prefix.len() as int) =~= value);
}

/// A number that is followed by another digit is ten times itself and that digit.
pub proof fn digits_count_by_tens(digits: Seq<char>, digit: char)
    requires
        '0' <= digit <= '9',
    ensures
        number_of(Seq::<char>::empty()) == 0,
        number_of(digits.push(digit)) == 10 * number_of(digits) + (digit as int - '0' as int),
{
    assert(digits.push(digit).drop_last() =~= digits);
}

/// A text is a number exactly where it is made of digits, with at most a plus sign before
/// them, and fits.
pub proof fn numbers_are_digits(text: Seq<char>)
    ensures
        parsed(Seq::<char>::empty()) is None,
        parsed(text) matches Some(number) ==> number == number_of(unsigned_part(text)),
        (exists|i: int|
            0 < i < text.len() && !('0' <= #[trigger] text[i] && text[i] <= '9')) ==> parsed(text)
            is None,
        text.len() > 0 && text[0] != '+' && !('0' <= text[0] && text[0] <= '9') ==> parsed(text)
            is None,
        text.len() > 0 && (forall|i: int| 0 <= i < text.len() ==> '0' <= #[trigger] text[i] <= '9')
            && number_of(text) <= u32::MAX ==> parsed(text) == Some(number_of(text) as u32),
{
    let digits = unsigned_part(text);
    if exists|i: int| 0 < i < text.len() && !('0' <= #[trigger] text[i] && text[i] <= '9') {
        let i = choose|i: int|
            0 < i < text.len() && !('0' <= #[trigger] text[i] && text[i] <= '9');
        if text[0] == '+' {
            assert(digits[i - 1] == text[i]);
        } else {
            assert(digits[i] == text[i]);
        }
    }
    if text.len() > 0 && text[0] != '+' && !('0' <= text[0] && text[0] <= '9') {
        assert(digits[0] == text[0]);
    }
}

/// A carriage return at the end of a line is no part of it.
pub proof fn lines_end_before_the_carriage_return(line: Seq<char>)
    ensures
        line_text(line.push('\r')) == line,
        line.len() > 0 && line.last() != '\r' ==> line_text(line) == line,
        line_text(Seq::<char>::empty()) == Seq::<char>::empty(),
{
    assert(line.push('\r').drop_last() =~= line);
}

/// The first line that names a parent decides; the lines after it are read only where it
/// names none.
pub proof fn the_first_line_with_a_parent_decides(line: Seq<char>, rest: Seq<char>)
    requires
        forall|i: int| 0 <= i < line.len() ==> #[trigger] line[i] != '\n',
    ensures
        parent_in(line_text(line)) is Some ==> parent_from(
            Seq::<char>::empty(),
            line + seq!['\n'] + rest,
        ) == parent_in(line_text(line)),
        parent_in(line_text(line)) is None ==> parent_from(
            Seq::<char>::empty(),
            line + seq!['\n'] + rest,
        ) == parent_from(Seq::<char>::empty(), rest),
        parent_from(Seq::<char>::empty(), line) == parent_in(line),
{
    lemma_parent_of_line(Seq::<char>::empty(), line, rest);
    assert(Seq::<char>::empty() + line =~= line);
}

proof fn lemma_parent_of_line(read: Seq<char>, line: Seq<char>, rest: Seq<char>)
    requires
        forall|i: int| 0 <= i < line.len() ==> #[trigger] line[i] != '\n',
    ensures
        parent_from(read, line + seq!['\n'] + rest) == (match parent_in(line_text(read + line)) {
            Some(parent) => Some(parent),
            None => parent_from(Seq::<char>::empty(), rest),
        }),
        parent_from(read, line) == parent_in(read + line),
    decreases line.len(),
{
    let text = line + seq!['\n'] + rest;
    if line.len() == 0 {
        assert(text[0] == '\n');
        assert(text.drop_first() =~= rest);
        assert(read + line =~= read);
    } else {
        assert(text[0] == line[0]);
        assert(text.drop_first() =~= line.drop_first() + seq!['\n'] + rest);
        assert(read.push(line[0]) + line.drop_first() =~= read + line);
        lemma_parent_of_line(read.push(line[0]), line.drop_first(), rest);
    }
}

/// A search looks at a process that has a number, while it may look at any more. It goes on to
/// a parent that is another process, with one less to look at, and ends without one.
pub proof fn searches_go_on_to_the_parent(pid: u32, remaining: u32, parent: u32)
    ensures
        remaining > 0 && pid != 0 ==> (AncestorSearch { pid, remaining }).subject() == Some(pid),
        (AncestorSearch { pid, remaining: 0 }).subject() is None,
        (AncestorSearch { pid: 0, remaining }).subject() is None,
        remaining > 0 && parent != pid ==> (AncestorSearch { pid, remaining }).after(Some(parent))
            == (AncestorSearch { pid: parent, remaining: (remaining - 1) as u32 }),
        (AncestorSearch { pid, remaining }).after(None).subject() is None,
        (AncestorSearch { pid, remaining }).after(Some(pid)).subject() is None,
        MAX_ANCESTORS == 32,
{
}

/// A process without a mark is found by that of its parent.
pub proof fn marks_are_inherited(
    pid: u32,
    parent: u32,
    remaining: u32,
    facts: spec_fn(u32) -> ProcessFacts,
)
    requires
        pid != 0,
        parent != 0,
        parent != pid,
        remaining > 1,
        facts(pid).mark is None,
        facts(pid).parent == Some(parent),
        facts(parent).mark is Some,
    ensures
        found_mark(AncestorSearch { pid, remaining }, facts) == facts(parent).mark,
{
    reveal_with_fuel(found_mark, 3);
}

proof fn lemma_entries_after(head: Seq<u8>, rest: Seq<u8>, start: int, prefix: Seq<char>)
    requires
        0 <= start <= rest.len(),
    ensures
        entry_end(head + rest, head.len() + start) == head.len() + entry_end(rest, start),
        value_from(head + rest, head.len() + start, prefix) == value_from(rest, start, prefix),
    decreases rest.len() - start,
{
    let whole = head + rest;
    lemma_end_after(head, rest, start);
    entry_ends_later(rest, start);
    let end = entry_end(rest, start);
    assert(whole.subrange(head.len() + start, head.len() + end) =~= rest.subrange(start, end));
    if end < rest.len() {
        lemma_entries_after(head, rest, end + 1, prefix);
    }
}

proof fn lemma_end_after(head: Seq<u8>, rest: Seq<u8>, start: int)
    requires
        0 <= start <= rest.len(),
    ensures
        entry_end(head + rest, head.len() + start) == head.len() + entry_end(rest, start),
    decreases rest.len() - start,
{
    if start < rest.len() {
        assert((head + rest)[head.len() + start] == rest[start]);
        if rest[start] != 0 {
            lemma_end_after(head, rest, start + 1);
        }
    }
}

/// An entry that is no text, or is of another variable, is passed over; the value is that of
/// the entries after it.
pub proof fn other_entries_are_passed_over(entry: Seq<u8>, rest: Seq<u8>, name: Seq<char>)
    requires
        forall|i: int| 0 <= i < entry.len() ==> #[trigger] entry[i] != 0,
        valid_utf8(entry) ==> after_prefix(decode_utf8(entry), name + "="@) is None,
    ensures
        environment_value(entry + seq![0u8] + rest, name) == environment_value(rest, name),
        environment_value(entry, name) is None,
{
    let head = entry + seq![0u8];
    let bytes = head + rest;
    assert(bytes[entry.len() as int] == 0);
    assert forall|i: int| 0 <= i < entry.len() implies #[trigger] bytes[i] != 0 by {
        assert(bytes[i] == entry[i]);
    }
    entry_is_whole(bytes, 0, entry.len() as int);
    assert(bytes.subrange(0, entry.len() as int) =~= entry);
    lemma_entries_after(head, rest, 0, name + "="@);
    entry_is_whole(entry, 0, entry.len() as int);
    assert(entry.subrange(0, entry.len() as int) =~= entry);
}

} // verus!
