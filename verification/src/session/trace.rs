//! Opt-in, bounded tracing of what happens to one window.

use std::collections::HashSet;

use vstd::prelude::*;
use vstd::string::{StrSliceExecFns, StringExecFns};

use crate::session::trace_state::{number_text, shown_number};
use crate::steps::{str_of, text_of};
use crate::text::{
    char_size, contains, lowercase, occurs_in, push, quoted, quoted_text, same_text, text_size,
    text_size_grows, trim, trimmed,
};
use crate::time::Duration;

verus! {

broadcast use vstd::std_specs::hash::group_hash_axioms;

pub const MAX_TRACKED_WINDOWS: usize = 32;

pub const MAX_EVENTS: u64 = 4_096;

pub const MAX_DETAIL_BYTES: usize = 8_192;

pub const MOTION_SAMPLE_INTERVAL_MS: u64 = 50;

/// The character as it stands in a single line.
pub open spec fn inline_char(c: char) -> char {
    if c == '\n' || c == '\r' {
        ' '
    } else {
        c
    }
}

/// The text in a single line.
pub open spec fn inline(text: Seq<char>) -> Seq<char> {
    text.map_values(|c: char| inline_char(c))
}

/// `line` is the text in a single line, cut where it takes more than the bytes that
/// are allowed: as much of it as fits, and an ellipsis.
pub open spec fn is_bounded_line(text: Seq<char>, line: Seq<char>) -> bool {
    let whole = inline(text);
    if text_size(whole) <= MAX_DETAIL_BYTES {
        line == whole
    } else {
        exists|kept: int|
            #![trigger whole.take(kept)]
            0 <= kept < whole.len() && text_size(whole.take(kept)) <= MAX_DETAIL_BYTES
                && MAX_DETAIL_BYTES < text_size(whole.take(kept + 1)) && line == whole.take(
                kept,
            ).push('\u{2026}')
    }
}

/// The text in a single line of bounded size.
pub fn bounded_single_line(value: &str) -> (line: String)
    ensures
        is_bounded_line(value@, line@),
{
    let length: usize = value.unicode_len();
    let mut line = String::new();
    let mut size: usize = 0;
    let mut index: usize = 0;
    let ghost whole = inline(value@);
    assert(whole.take(0) =~= Seq::<char>::empty());
    for c in it: value.chars()
        invariant
            it.seq() == value@,
            whole == inline(value@),
            length == value@.len(),
            index == it.index(),
            index <= length,
            line@ == whole.take(index as int),
            size == text_size(line@),
            size <= MAX_DETAIL_BYTES,
    {
        let c = if c == '\n' || c == '\r' {
            ' '
        } else {
            c
        };
        assert(c == whole[index as int]);
        let more: usize = char_size(c);
        proof {
            let next = whole.take(index as int + 1);
            assert(next.drop_last() =~= whole.take(index as int));
            assert(next.last() == c);
            assert(whole.take(whole.len() as int) =~= whole);
            text_size_grows(whole, index as int + 1, whole.len() as int);
        }
        if size + more > MAX_DETAIL_BYTES {
            push(&mut line, '\u{2026}');
            assert(line@ == whole.take(index as int).push('\u{2026}'));
            return line;
        }
        push(&mut line, c);
        assert(line@ =~= whole.take(index as int + 1));
        size += more;
        index += 1;
    }
    assert(whole.take(whole.len() as int) =~= whole);
    line
}

/// The bytes of a bounded line: at most the ellipsis more than the limit, and no line
/// break in it.
pub proof fn bounded_lines_are_bounded(text: Seq<char>, line: Seq<char>)
    requires
        is_bounded_line(text, line),
    ensures
        text_size(line) <= MAX_DETAIL_BYTES + 3,
        !line.contains('\n'),
        !line.contains('\r'),
{
    let whole = inline(text);
    assert forall|i: int| 0 <= i < whole.len() implies #[trigger] whole[i] != '\n' && whole[i]
        != '\r' by {
        assert(whole[i] == inline_char(text[i]));
    }
    if text_size(whole) > MAX_DETAIL_BYTES {
        let kept = choose|kept: int|
            #![trigger whole.take(kept)]
            0 <= kept < whole.len() && text_size(whole.take(kept)) <= MAX_DETAIL_BYTES
                && MAX_DETAIL_BYTES < text_size(whole.take(kept + 1)) && line == whole.take(
                kept,
            ).push('\u{2026}');
        assert(line.drop_last() =~= whole.take(kept));
        assert forall|i: int| 0 <= i < line.len() implies line[i] != '\n' && line[i] != '\r' by {
            if i < kept {
                assert(line[i] == whole[i]);
            }
        }
    }
}

/// A bounded line stays as it is when it is bounded again.
pub proof fn bounding_again_changes_nothing(text: Seq<char>, line: Seq<char>, again: Seq<char>)
    requires
        is_bounded_line(text, line),
        is_bounded_line(line, again),
    ensures
        again == line,
{
    let whole = inline(text);
    bounded_lines_are_bounded(text, line);
    assert forall|i: int| 0 <= i < line.len() implies #[trigger] inline(line)[i] == line[i] by {
        assert(line.contains(line[i]));
    }
    assert(inline(line) =~= line);
    if text_size(line) > MAX_DETAIL_BYTES {
        assert(text_size(whole) > MAX_DETAIL_BYTES);
        let kept = choose|kept: int|
            #![trigger whole.take(kept)]
            0 <= kept < whole.len() && text_size(whole.take(kept)) <= MAX_DETAIL_BYTES
                && MAX_DETAIL_BYTES < text_size(whole.take(kept + 1)) && line == whole.take(
                kept,
            ).push('\u{2026}');
        let next = choose|next: int|
            #![trigger line.take(next)]
            0 <= next < line.len() && text_size(line.take(next)) <= MAX_DETAIL_BYTES
                && MAX_DETAIL_BYTES < text_size(line.take(next + 1)) && again == line.take(
                next,
            ).push('\u{2026}');
        assert(line.take(kept) =~= whole.take(kept));
        if next < kept {
            text_size_grows(line, next + 1, kept);
        }
        assert(next == kept);
        assert(again =~= line);
    }
}

/// Whether a selector is in a name, whatever the case of either.
pub open spec fn matches_selector(selector: Seq<char>, candidate: Seq<char>) -> bool {
    occurs_in(lowercase(candidate), lowercase(selector))
}

pub fn selector_matches(selector: &str, candidate: &str) -> (r: bool)
    ensures
        r == matches_selector(selector@, candidate@),
{
    let name = candidate.to_lowercase();
    let wanted = selector.to_lowercase();
    contains(name.as_str(), wanted.as_str())
}

/// The last thing that was said of an event of a window.
#[derive(Debug)]
pub struct TraceRecord {
    pub xid: u32,
    pub event: String,
    pub details: String,
    pub at: Duration,
}

/// What was last said of an event, and when.
pub open spec fn last_said(records: Seq<TraceRecord>, xid: u32, event: Seq<char>) -> Option<
    (Seq<char>, Duration),
>
    decreases records.len(),
{
    if records.len() == 0 {
        None
    } else if records.last().xid == xid && records.last().event@ == event {
        Some((records.last().details@, records.last().at))
    } else {
        last_said(records.drop_last(), xid, event)
    }
}

/// The time from one point to another, none where that is not later.
pub open spec fn elapsed(from: Duration, to: Duration) -> int {
    if to.nanos >= from.nanos {
        to.nanos - from.nanos
    } else {
        0
    }
}

/// What the trace does with what it is told.
#[derive(Debug)]
pub struct Emission {
    /// The line that is written, with its number.
    pub line: Option<(u64, String)>,
    /// The trace says that it stops.
    pub stops: bool,
}

/// Tracing of the windows that a selector picks. It is inert without a selector, and
/// stops after a fixed number of lines.
#[derive(Debug)]
pub struct WindowTrace {
    selector: Option<String>,
    followed: HashSet<u32>,
    records: Vec<TraceRecord>,
    emitted: u64,
    limit_reported: bool,
}

impl WindowTrace {
    pub closed spec fn spec_selector(self) -> Option<Seq<char>> {
        text_of(self.selector)
    }

    /// The windows that are traced.
    pub closed spec fn windows(self) -> Set<u32> {
        self.followed@
    }

    /// What was last said of an event, and when.
    pub closed spec fn said(self, xid: u32, event: Seq<char>) -> Option<(Seq<char>, Duration)> {
        last_said(self.records@, xid, event)
    }

    /// The lines that were written.
    pub closed spec fn lines(self) -> nat {
        self.emitted as nat
    }

    /// The end was reported.
    pub closed spec fn stopped(self) -> bool {
        self.limit_reported
    }

    pub open spec fn is_enabled(self) -> bool {
        self.spec_selector() is Some && self.lines() < MAX_EVENTS
    }

    /// A trace that nothing was said to, of the windows that `value` picks, of none where it
    /// is blank.
    pub open spec fn is_fresh(self, value: Option<Seq<char>>) -> bool {
        &&& self.spec_selector() == (match value {
            Some(value) => if trimmed(value).len() == 0 {
                None
            } else {
                Some(trimmed(value))
            },
            None => None,
        })
        &&& self.windows() == Set::<u32>::empty()
        &&& forall|xid: u32, event: Seq<char>| self.said(xid, event) is None
        &&& self.lines() == 0
        &&& !self.stopped()
    }

    /// A trace of the windows that `value` picks, of none where it is blank.
    pub fn from_env(value: Option<&str>) -> (trace: Self)
        ensures
            trace.is_fresh(str_of(value)),
    {
        let selector = match value {
            Some(value) => {
                let text = trim(value);
                if text.as_str().is_empty() {
                    None
                } else {
                    Some(text)
                }
            },
            None => None,
        };
        WindowTrace {
            selector,
            followed: HashSet::new(),
            records: Vec::new(),
            emitted: 0,
            limit_reported: false,
        }
    }

    /// What the windows that are traced have in their names.
    pub fn selector(&self) -> (selector: Option<&str>)
        ensures
            str_of(selector) == self.spec_selector(),
    {
        match &self.selector {
            Some(selector) => Some(selector.as_str()),
            None => None,
        }
    }

    pub fn enabled(&self) -> (r: bool)
        ensures
            r == self.is_enabled(),
    {
        self.selector.is_some() && self.emitted < MAX_EVENTS
    }

    pub fn is_tracked(&self, xid: u32) -> (r: bool)
        ensures
            r == self.windows().contains(xid),
    {
        self.followed.contains(&xid)
    }

    /// Says once that no more lines come.
    fn report_limit_once(&mut self) -> (reports: bool)
        ensures
            reports == (old(self).spec_selector() is Some && !old(self).stopped() && old(
                self,
            ).lines() >= MAX_EVENTS),
            final(self).stopped() == (old(self).stopped() || reports),
            final(self).selector == old(self).selector,
            final(self).followed == old(self).followed,
            final(self).records == old(self).records,
            final(self).emitted == old(self).emitted,
    {
        if self.selector.is_none() || self.limit_reported || self.emitted < MAX_EVENTS {
            return false;
        }
        self.limit_reported = true;
        true
    }

    /// What becomes of something that is said: nothing once the trace has ended, nothing
    /// where it was the last thing said of the event, and nothing where the last was
    /// said less than `interval` ago.
    pub open spec fn accepts(
        self,
        xid: u32,
        event: Seq<char>,
        line: Seq<char>,
        interval: Option<Duration>,
        now: Duration,
    ) -> bool {
        &&& self.is_enabled()
        &&& match self.said(xid, event) {
            None => true,
            Some((details, at)) => details != line && (interval is Some ==> elapsed(at, now)
                >= interval->0.nanos),
        }
    }

    /// The trace after something was said, and what it writes.
    pub open spec fn emits(
        self,
        next: WindowTrace,
        xid: u32,
        event: Seq<char>,
        line: Seq<char>,
        interval: Option<Duration>,
        now: Duration,
        emission: Emission,
    ) -> bool {
        let accepted = self.accepts(xid, event, line, interval, now);
        &&& next.spec_selector() == self.spec_selector()
        &&& next.windows() == self.windows()
        &&& next.lines() == self.lines() + (if accepted {
            1int
        } else {
            0int
        })
        &&& forall|x: u32, e: Seq<char>| #[trigger]
            next.said(x, e) == (if accepted && x == xid && e == event {
                Some((line, now))
            } else {
                self.said(x, e)
            })
        &&& emission.line is Some == accepted
        &&& emission.line matches Some((number, text)) ==> number == next.lines() && text@ == line
        &&& emission.stops == (self.spec_selector() is Some && !self.stopped() && (accepted
            || !self.is_enabled()) && next.lines() >= MAX_EVENTS)
        &&& next.stopped() == (self.stopped() || emission.stops)
    }

    fn emit_with_interval(
        &mut self,
        xid: u32,
        event: &str,
        details: &str,
        interval: Option<Duration>,
        now: Duration,
    ) -> (emission: Emission)
        ensures
            exists|line: Seq<char>|
                is_bounded_line(details@, line) && #[trigger] old(self).emits(
                    *final(self),
                    xid,
                    event@,
                    line,
                    interval,
                    now,
                    emission,
                ),
    {
        let line = bounded_single_line(details);
        let ghost before = *self;
        let ghost told = line@;
        if !self.enabled() {
            let stops = self.report_limit_once();
            let emission = Emission { line: None, stops };
            assert(before.emits(*self, xid, event@, told, interval, now, emission));
            return emission;
        }
        let found = find_record(&self.records, xid, event);
        if let Some(index) = found {
            let record = &self.records[index];
            let repeated = same_text(record.details.as_str(), line.as_str());
            let early = match interval {
                Some(least) => now.saturating_sub(record.at).nanos < least.nanos,
                None => false,
            };
            if repeated || early {
                let emission = Emission { line: None, stops: false };
                assert(before.emits(*self, xid, event@, told, interval, now, emission));
                return emission;
            }
        }
        let record = TraceRecord { xid, event: event.to_owned(), details: line.clone(), at: now };
        self.records.push(record);
        proof {
            assert(self.records@.drop_last() =~= before.records@);
        }
        self.emitted += 1;
        let number: u64 = self.emitted;
        let stops = self.report_limit_once();
        let emission = Emission { line: Some((number, line)), stops };
        assert(before.emits(*self, xid, event@, told, interval, now, emission));
        emission
    }

    /// Says something of a window, unless it was the last thing said of the event.
    pub fn emit(&mut self, xid: u32, event: &str, details: &str, now: Duration) -> (emission:
        Emission)
        ensures
            exists|line: Seq<char>|
                is_bounded_line(details@, line) && #[trigger] old(self).emits(
                    *final(self),
                    xid,
                    event@,
                    line,
                    None,
                    now,
                    emission,
                ),
    {
        self.emit_with_interval(xid, event, details, None, now)
    }

    /// Says something that changes all the time, at most so often.
    pub fn emit_sampled(&mut self, xid: u32, event: &str, details: &str, now: Duration)
        -> (emission: Emission)
        ensures
            exists|line: Seq<char>|
                is_bounded_line(details@, line) && #[trigger] old(self).emits(
                    *final(self),
                    xid,
                    event@,
                    line,
                    Some(Duration { nanos: 50_000_000 }),
                    now,
                    emission,
                ),
    {
        let interval = Duration::from_millis(MOTION_SAMPLE_INTERVAL_MS);
        assert(interval == (Duration { nanos: 50_000_000 }));
        self.emit_with_interval(xid, event, details, Some(interval), now)
    }

    /// Whether a window is traced from now on: one of its names has the selector in it,
    /// and there is room for it.
    fn follow(&mut self, window: &X11Window) -> (observed: Observed)
        ensures
            observed == old(self).observes(*window),
            old(self).follows(*final(self), *window),
    {
        if self.is_tracked(window.xid) {
            return Observed::Known;
        }
        let matched = match &self.selector {
            Some(selector) => self.followed.len() < MAX_TRACKED_WINDOWS && any_matches(
                selector.as_str(),
                window,
            ),
            None => false,
        };
        if !matched {
            return Observed::Ignored;
        }
        self.followed.insert(window.xid);
        Observed::Registered
    }

    /// What the trace makes of a window.
    pub open spec fn observes(self, window: X11Window) -> Observed {
        if self.windows().contains(window.xid) {
            Observed::Known
        } else if self.spec_selector() is Some && self.windows().len() < MAX_TRACKED_WINDOWS
            && is_named(self.spec_selector()->0, window) {
            Observed::Registered
        } else {
            Observed::Ignored
        }
    }

    /// The trace after a window was seen, before anything is said of it.
    pub open spec fn follows(self, next: WindowTrace, window: X11Window) -> bool {
        &&& next.windows() == (if self.observes(window) == Observed::Registered {
            self.windows().insert(window.xid)
        } else {
            self.windows()
        })
        &&& next.spec_selector() == self.spec_selector()
        &&& next.lines() == self.lines()
        &&& next.stopped() == self.stopped()
        &&& forall|x: u32, e: Seq<char>| #[trigger] next.said(x, e) == self.said(x, e)
    }

    /// The trace after a window was seen: it says which, where it is to be traced from now
    /// on.
    pub open spec fn notices(
        self,
        next: WindowTrace,
        window: X11Window,
        now: Duration,
        observation: Observation,
    ) -> bool {
        &&& observation.observed == self.observes(window)
        &&& observation.emission is Some == (observation.observed == Observed::Registered)
        &&& if observation.observed == Observed::Registered {
            exists|following: WindowTrace, line: Seq<char>|
                self.follows(following, window) && is_bounded_line(registered_text(window), line)
                    && #[trigger] following.emits(
                    next,
                    window.xid,
                    "registered"@,
                    line,
                    None,
                    now,
                    observation.emission->0,
                )
        } else {
            self.follows(next, window)
        }
    }

    /// Sees a window. One that is to be traced from now on is told of.
    pub fn observe_x11(&mut self, window: &X11Window, now: Duration) -> (observation: Observation)
        ensures
            old(self).notices(*final(self), *window, now, observation),
    {
        let observed = self.follow(window);
        if observed != Observed::Registered {
            return Observation { observed, emission: None };
        }
        let ghost following = *self;
        let details = registered_details(window);
        let emission = self.emit(window.xid, "registered", details.as_str(), now);
        let observation = Observation { observed, emission: Some(emission) };
        proof {
            let line = choose|line: Seq<char>|
                is_bounded_line(details@, line) && #[trigger] following.emits(
                    *self,
                    window.xid,
                    "registered"@,
                    line,
                    None,
                    now,
                    emission,
                );
            assert(following.emits(
                *self,
                window.xid,
                "registered"@,
                line,
                None,
                now,
                observation.emission->0,
            ));
        }
        observation
    }

    /// The trace after a window was forgotten.
    pub open spec fn forgets(self, next: WindowTrace, xid: u32) -> bool {
        &&& next.windows() == self.windows().remove(xid)
        &&& next.spec_selector() == self.spec_selector()
        &&& next.lines() == self.lines()
        &&& next.stopped() == self.stopped()
        &&& forall|x: u32, e: Seq<char>| #[trigger]
            next.said(x, e) == (if x == xid {
                None
            } else {
                self.said(x, e)
            })
    }

    /// Forgets a window that is gone.
    pub fn forget(&mut self, xid: u32)
        ensures
            old(self).forgets(*final(self), xid),
    {
        self.followed.remove(&xid);
        let mut records: Vec<TraceRecord> = Vec::new();
        std::mem::swap(&mut records, &mut self.records);
        let ghost before = records@;
        let mut kept: Vec<TraceRecord> = Vec::new();
        let mut index: usize = 0;
        while index < records.len()
            invariant
                records@ == before,
                index <= before.len(),
                forall|x: u32, e: Seq<char>| #[trigger]
                    last_said(kept@, x, e) == (if x == xid {
                        None
                    } else {
                        last_said(before.take(index as int), x, e)
                    }),
            decreases before.len() - index,
        {
            let record = &records[index];
            let ghost earlier = kept@;
            if record.xid != xid {
                let copy = TraceRecord {
                    xid: record.xid,
                    event: record.event.clone(),
                    details: record.details.clone(),
                    at: record.at,
                };
                kept.push(copy);
                assert(kept@.drop_last() =~= earlier);
            }
            proof {
                let longer = before.take(index as int + 1);
                assert(longer.drop_last() =~= before.take(index as int));
                assert(longer.last() == *record);
                assert forall|x: u32, e: Seq<char>| #[trigger] last_said(kept@, x, e) == (if x
                    == xid {
                    None
                } else {
                    last_said(longer, x, e)
                }) by {
                    assert(last_said(earlier, x, e) == (if x == xid {
                        None
                    } else {
                        last_said(before.take(index as int), x, e)
                    }));
                }
            }
            index += 1;
        }
        proof {
            assert(before.take(before.len() as int) =~= before);
        }
        self.records = kept;
    }
}

/// What the trace makes of a window.
#[derive(Clone, Copy, Debug, PartialEq, Eq, Structural)]
pub enum Observed {
    Known,
    Registered,
    Ignored,
}

/// What came of seeing a window.
#[derive(Debug)]
pub struct Observation {
    pub observed: Observed,
    /// What is written, where the window is traced from now on.
    pub emission: Option<Emission>,
}

/// What is known of an X11 window.
#[derive(Debug)]
pub struct X11Window {
    pub xid: u32,
    pub pid: Option<u32>,
    pub instance: String,
    pub class: String,
    pub title: String,
    /// The names that its process goes by.
    pub labels: Vec<String>,
}

/// The selector is in one of the names of a window or its process.
pub open spec fn is_named(selector: Seq<char>, window: X11Window) -> bool {
    ||| matches_selector(selector, window.instance@)
    ||| matches_selector(selector, window.class@)
    ||| matches_selector(selector, window.title@)
    ||| exists|i: int|
        0 <= i < window.labels@.len() && matches_selector(selector, #[trigger] window.labels@[i]@)
}

fn any_matches(selector: &str, window: &X11Window) -> (r: bool)
    ensures
        r == is_named(selector@, *window),
{
    if selector_matches(selector, window.instance.as_str()) || selector_matches(
        selector,
        window.class.as_str(),
    ) || selector_matches(selector, window.title.as_str()) {
        return true;
    }
    let mut index: usize = 0;
    while index < window.labels.len()
        invariant
            index <= window.labels@.len(),
            !matches_selector(selector@, window.instance@),
            !matches_selector(selector@, window.class@),
            !matches_selector(selector@, window.title@),
            forall|i: int|
                0 <= i < index ==> !matches_selector(selector@, #[trigger] window.labels@[i]@),
        decreases window.labels@.len() - index,
    {
        if selector_matches(selector, window.labels[index].as_str()) {
            assert(matches_selector(selector@, window.labels@[index as int]@));
            return true;
        }
        index += 1;
    }
    false
}

/// The labels in quotes, with commas between them.
pub open spec fn labels_text(labels: Seq<String>) -> Seq<char>
    decreases labels.len(),
{
    if labels.len() == 0 {
        Seq::empty()
    } else if labels.len() == 1 {
        quoted_text(labels[0]@)
    } else {
        labels_text(labels.drop_last()) + ", "@ + quoted_text(labels.last()@)
    }
}

/// What is told of a window that is traced from now on.
pub open spec fn registered_text(window: X11Window) -> Seq<char> {
    "pid="@ + shown_number(window.pid) + " instance="@ + quoted_text(window.instance@) + " class="@
        + quoted_text(window.class@) + " title="@ + quoted_text(window.title@) + " process=["@
        + labels_text(window.labels@) + "]"@
}

fn registered_details(window: &X11Window) -> (text: String)
    ensures
        text@ == registered_text(*window),
{
    let mut labels = String::new();
    let mut index: usize = 0;
    assert(labels@ =~= labels_text(window.labels@.take(0)));
    while index < window.labels.len()
        invariant
            index <= window.labels@.len(),
            labels@ == labels_text(window.labels@.take(index as int)),
        decreases window.labels@.len() - index,
    {
        if index > 0 {
            labels.append(", ");
        }
        labels.append(quoted(window.labels[index].as_str()).as_str());
        proof {
            let longer = window.labels@.take(index as int + 1);
            assert(longer.drop_last() =~= window.labels@.take(index as int));
            assert(longer.last() == window.labels@[index as int]);
            assert(longer[0] == window.labels@[0]);
            assert(labels@ =~= labels_text(longer));
        }
        index += 1;
    }
    assert(window.labels@.take(index as int) =~= window.labels@);
    let mut text: String = "pid=".to_owned();
    text.append(number_text(window.pid).as_str());
    text.append(" instance=");
    text.append(quoted(window.instance.as_str()).as_str());
    text.append(" class=");
    text.append(quoted(window.class.as_str()).as_str());
    text.append(" title=");
    text.append(quoted(window.title.as_str()).as_str());
    text.append(" process=[");
    text.append(labels.as_str());
    text.append("]");
    text
}

/// Where the last thing that was said of an event is.
fn find_record(records: &Vec<TraceRecord>, xid: u32, event: &str) -> (found: Option<usize>)
    ensures
        match found {
            Some(index) => index < records@.len() && last_said(records@, xid, event@) == Some(
                (records@[index as int].details@, records@[index as int].at),
            ),
            None => last_said(records@, xid, event@) is None,
        },
{
    let mut end: usize = records.len();
    assert(records@.take(end as int) =~= records@);
    while end > 0
        invariant
            end <= records@.len(),
            last_said(records@, xid, event@) == last_said(records@.take(end as int), xid, event@),
        decreases end,
    {
        let record = &records[end - 1];
        proof {
            assert(records@.take(end as int).drop_last() =~= records@.take(end as int - 1));
            assert(records@.take(end as int).last() == records@[end as int - 1]);
        }
        if record.xid == xid && same_text(record.event.as_str(), event) {
            return Some(end - 1);
        }
        end -= 1;
    }
    None
}

/// A trace never writes more lines than it is allowed, and one that has written them
/// all accepts nothing more.
pub proof fn traces_end(
    trace: WindowTrace,
    next: WindowTrace,
    xid: u32,
    event: Seq<char>,
    line: Seq<char>,
    interval: Option<Duration>,
    now: Duration,
    emission: Emission,
)
    requires
        trace.lines() <= MAX_EVENTS,
        trace.emits(next, xid, event, line, interval, now, emission),
    ensures
        next.lines() <= MAX_EVENTS,
        trace.lines() == MAX_EVENTS ==> emission.line is None,
        trace.stopped() ==> !emission.stops,
{
}

/// One use of a trace.
pub enum TraceCall {
    Emit {
        xid: u32,
        event: Seq<char>,
        details: Seq<char>,
        interval: Option<Duration>,
        now: Duration,
        emission: Emission,
    },
    Observe { window: X11Window, now: Duration, observation: Observation },
    Forget { xid: u32 },
}

/// The use of the trace leads from one state of it to the next.
pub open spec fn call_leads(before: WindowTrace, after: WindowTrace, call: TraceCall) -> bool {
    match call {
        TraceCall::Emit { xid, event, details, interval, now, emission } => exists|line: Seq<char>|
            is_bounded_line(details, line) && #[trigger] before.emits(
                after,
                xid,
                event,
                line,
                interval,
                now,
                emission,
            ),
        TraceCall::Observe { window, now, observation } => before.notices(
            after,
            window,
            now,
            observation,
        ),
        TraceCall::Forget { xid } => before.forgets(after, xid),
    }
}

/// The states that a trace goes through, one more than it was used.
pub open spec fn is_trace_run(states: Seq<WindowTrace>, calls: Seq<TraceCall>) -> bool {
    &&& states.len() == calls.len() + 1
    &&& forall|i: int|
        #![trigger calls[i]]
        0 <= i < calls.len() ==> call_leads(states[i], states[i + 1], calls[i])
}

/// What the trace writes in answer to one use of it.
pub open spec fn emission_of(call: TraceCall) -> Option<Emission> {
    match call {
        TraceCall::Emit { emission, .. } => Some(emission),
        TraceCall::Observe { observation, .. } => observation.emission,
        TraceCall::Forget { .. } => None,
    }
}

/// The lines that were written.
pub open spec fn lines_written(calls: Seq<TraceCall>) -> nat
    decreases calls.len(),
{
    if calls.len() == 0 {
        0
    } else {
        lines_written(calls.drop_last()) + (if emission_of(calls.last()) matches Some(emission)
            && emission.line is Some {
            1nat
        } else {
            0nat
        })
    }
}

/// How often the trace said that it stops.
pub open spec fn stops_reported(calls: Seq<TraceCall>) -> nat
    decreases calls.len(),
{
    if calls.len() == 0 {
        0
    } else {
        stops_reported(calls.drop_last()) + (if emission_of(calls.last()) matches Some(emission)
            && emission.stops {
            1nat
        } else {
            0nat
        })
    }
}

/// However a trace is used, it writes at most so many lines, and none without a selector.
/// With the last line it says that it stops, once, and from then on it is not enabled.
pub proof fn whole_traces_end(
    value: Option<Seq<char>>,
    states: Seq<WindowTrace>,
    calls: Seq<TraceCall>,
)
    requires
        is_trace_run(states, calls),
        states[0].is_fresh(value),
    ensures
        lines_written(calls) <= MAX_EVENTS,
        value is None || trimmed(value->0).len() == 0 ==> lines_written(calls) == 0
            && stops_reported(calls) == 0,
        stops_reported(calls) == (if lines_written(calls) == MAX_EVENTS {
            1nat
        } else {
            0nat
        }),
        states.last().is_enabled() == (value is Some && trimmed(value->0).len() != 0
            && lines_written(calls) < MAX_EVENTS),
        states.last().spec_selector() == states[0].spec_selector(),
        states.last().lines() == lines_written(calls),
        states.last().stopped() == (lines_written(calls) == MAX_EVENTS),
    decreases calls.len(),
{
    if calls.len() > 0 {
        let earlier = states.drop_last();
        let fewer = calls.drop_last();
        assert forall|i: int|
            #![trigger fewer[i]]
            0 <= i < fewer.len() implies call_leads(earlier[i], earlier[i + 1], fewer[i]) by {
            assert(call_leads(states[i], states[i + 1], calls[i]));
        }
        whole_traces_end(value, earlier, fewer);
        let last = calls.len() - 1;
        assert(call_leads(states[last], states[last + 1], calls[last]));
    }
}

/// Saying the same thing again writes nothing.
pub proof fn repetition_is_silent(
    trace: WindowTrace,
    next: WindowTrace,
    xid: u32,
    event: Seq<char>,
    line: Seq<char>,
    interval: Option<Duration>,
    now: Duration,
    later: Duration,
    emission: Emission,
)
    requires
        trace.emits(next, xid, event, line, interval, now, emission),
        emission.line is Some,
    ensures
        !next.accepts(xid, event, line, interval, later),
{
    assert(next.said(xid, event) == Some((line, now)));
}

/// A line break becomes a space, and nothing else changes.
pub proof fn lines_are_joined_by_spaces(text: Seq<char>, i: int)
    requires
        0 <= i < text.len(),
    ensures
        inline(text).len() == text.len(),
        text[i] == '\n' || text[i] == '\r' ==> inline(text)[i] == ' ',
        text[i] != '\n' && text[i] != '\r' ==> inline(text)[i] == text[i],
{
}

/// A text of at most eight kibibytes is kept whole. What is kept of a longer one is its start,
/// as much as fits in that, and an ellipsis follows.
pub proof fn long_lines_end_in_an_ellipsis(text: Seq<char>, line: Seq<char>)
    requires
        is_bounded_line(text, line),
    ensures
        text_size(inline(text)) <= 8192 ==> line == inline(text),
        text_size(inline(text)) > 8192 ==> {
            &&& 0 < line.len() <= text.len()
            &&& line.last() as u32 == 0x2026
            &&& line.drop_last() == inline(text).take(line.len() - 1)
            &&& text_size(inline(text).take(line.len() - 1)) <= 8192 < text_size(
                inline(text).take(line.len() as int),
            )
        },
{
    let whole = inline(text);
    if text_size(whole) > 8192 {
        let kept = choose|kept: int|
            #![trigger whole.take(kept)]
            0 <= kept < whole.len() && text_size(whole.take(kept)) <= MAX_DETAIL_BYTES
                && MAX_DETAIL_BYTES < text_size(whole.take(kept + 1)) && line == whole.take(
                kept,
            ).push('\u{2026}');
        assert(line.drop_last() =~= whole.take(kept));
        assert(line.len() == kept + 1);
    }
}

/// What was said of an event is what was last said of it, until the window is forgotten.
pub proof fn the_last_word_counts(
    records: Seq<TraceRecord>,
    record: TraceRecord,
    xid: u32,
    event: Seq<char>,
)
    ensures
        last_said(records.push(record), record.xid, record.event@) == Some(
            (record.details@, record.at),
        ),
        xid != record.xid || event != record.event@ ==> last_said(records.push(record), xid, event)
            == last_said(records, xid, event),
        last_said(Seq::empty(), xid, event) is None,
{
    assert(records.push(record).drop_last() =~= records);
}

/// A trace without a selector, or that has written four thousand and ninety-six lines, accepts
/// nothing. Another accepts what was never said of an event, and what differs from the last,
/// once the interval has passed.
pub proof fn news_is_accepted(
    trace: WindowTrace,
    xid: u32,
    event: Seq<char>,
    line: Seq<char>,
    interval: Option<Duration>,
    now: Duration,
)
    ensures
        trace.spec_selector() is None || trace.lines() >= 4096 ==> !trace.accepts(
            xid,
            event,
            line,
            interval,
            now,
        ),
        trace.spec_selector() is Some && trace.lines() < 4096 ==> {
            &&& trace.said(xid, event) is None ==> trace.accepts(xid, event, line, interval, now)
            &&& trace.said(xid, event) is Some && (trace.said(xid, event)->0).0 == line
                ==> !trace.accepts(xid, event, line, interval, now)
            &&& trace.said(xid, event) is Some && (trace.said(xid, event)->0).0 != line
                && now.nanos >= (trace.said(xid, event)->0).1.nanos ==> (trace.accepts(
                xid,
                event,
                line,
                interval,
                now,
            ) <==> interval is None || now.nanos >= (trace.said(xid, event)->0).1.nanos
                + interval->0.nanos)
        },
{
}

/// What is accepted is written under the next number and remembered; what is not leaves the
/// trace as it was, but for the report of its end.
pub proof fn accepted_lines_are_written(
    trace: WindowTrace,
    next: WindowTrace,
    xid: u32,
    event: Seq<char>,
    line: Seq<char>,
    interval: Option<Duration>,
    now: Duration,
    emission: Emission,
    other: u32,
    other_event: Seq<char>,
)
    requires
        trace.emits(next, xid, event, line, interval, now, emission),
    ensures
        trace.accepts(xid, event, line, interval, now) ==> {
            &&& emission.line is Some
            &&& (emission.line->0).0 == trace.lines() + 1
            &&& (emission.line->0).1@ == line
            &&& next.lines() == trace.lines() + 1
            &&& next.said(xid, event) == Some((line, now))
            &&& emission.stops <==> !trace.stopped() && trace.lines() == 4095
        },
        !trace.accepts(xid, event, line, interval, now) ==> {
            &&& emission.line is None
            &&& next.lines() == trace.lines()
            &&& next.said(xid, event) == trace.said(xid, event)
        },
        other != xid || other_event != event ==> next.said(other, other_event) == trace.said(
            other,
            other_event,
        ),
        next.windows() == trace.windows(),
        next.spec_selector() == trace.spec_selector(),
{
    assert(next.said(other, other_event) == (if trace.accepts(xid, event, line, interval, now)
        && other == xid && other_event == event {
        Some((line, now))
    } else {
        trace.said(other, other_event)
    }));
}

/// At most thirty-two windows are traced, and each of them has the selector in one of its names
/// when it is first seen. One that is traced is not told of again.
pub proof fn few_windows_are_traced(trace: WindowTrace, next: WindowTrace, window: X11Window)
    requires
        trace.follows(next, window),
        trace.windows().finite(),
        trace.windows().len() <= 32,
    ensures
        next.windows().finite() && next.windows().len() <= 32,
        trace.windows().subset_of(next.windows()),
        trace.observes(window) is Known <==> trace.windows().contains(window.xid),
        trace.observes(window) is Registered ==> {
            &&& next.windows().contains(window.xid)
            &&& trace.spec_selector() is Some
            &&& is_named(trace.spec_selector()->0, window)
        },
        trace.observes(window) is Ignored ==> !next.windows().contains(window.xid) && (
        trace.spec_selector() is None || trace.windows().len() == 32 || !is_named(
            trace.spec_selector()->0,
            window,
        )),
{
}

/// A name has the selector in it exactly where its lower case has that of the selector at some
/// place.
pub proof fn selectors_ignore_case(selector: Seq<char>, candidate: Seq<char>, at: int)
    requires
        0 <= at <= lowercase(candidate).len() - lowercase(selector).len(),
        forall|i: int|
            0 <= i < lowercase(selector).len() ==> #[trigger] lowercase(selector)[i] == lowercase(
                candidate,
            )[at + i],
    ensures
        matches_selector(selector, candidate),
{
    assert(lowercase(candidate).subrange(at, at + lowercase(selector).len()) =~= lowercase(
        selector,
    ));
    assert(crate::text::occurs_at(lowercase(candidate), lowercase(selector), at));
}

/// A window that is forgotten is traced no longer, and nothing said of it is remembered; others
/// are not touched. One that is seen again may be traced again.
pub proof fn forgotten_windows_start_anew(
    trace: WindowTrace,
    next: WindowTrace,
    xid: u32,
    other: u32,
    event: Seq<char>,
)
    requires
        trace.forgets(next, xid),
    ensures
        !next.windows().contains(xid),
        next.said(xid, event) is None,
        other != xid ==> next.windows().contains(other) == trace.windows().contains(other)
            && next.said(other, event) == trace.said(other, event),
        next.lines() == trace.lines(),
        next.spec_selector() == trace.spec_selector(),
{
    assert(next.said(xid, event) is None);
    assert(next.said(other, event) == (if other == xid {
        None
    } else {
        trace.said(other, event)
    }));
}

/// A trace starts with nothing traced and nothing said, with what is left of the value between
/// white space as its selector.
pub proof fn traces_start_blank(trace: WindowTrace, value: Seq<char>, xid: u32, event: Seq<char>)
    requires
        trace.is_fresh(Some(value)),
    ensures
        trimmed(value).len() == 0 ==> !trace.is_enabled(),
        trimmed(value).len() > 0 ==> trace.is_enabled() && trace.spec_selector() == Some(
            trimmed(value),
        ),
        !trace.windows().contains(xid),
        trace.said(xid, event) is None,
        trace.lines() == 0,
{
}

/// Labels are told in quotes, with a comma and a space between each and the next.
pub proof fn labels_are_told_in_a_row(labels: Seq<String>, last: String)
    ensures
        labels_text(Seq::<String>::empty()).len() == 0,
        labels.len() == 0 ==> labels_text(labels.push(last)) == quoted_text(last@),
        labels.len() > 0 ==> labels_text(labels.push(last)) == labels_text(labels) + seq![',', ' ']
            + quoted_text(last@),
{
    reveal_strlit(", ");
    assert(", "@ =~= seq![',', ' ']);
    assert(labels.push(last).drop_last() =~= labels);
}

} // verus!
