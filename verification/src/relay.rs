//! The log relay: each line of the sidecar's output is tagged with its
//! stream of origin and a local timestamp, in arrival order. The surrounding
//! loop that drains the stream and appends to the log file lives outside the
//! library; the rendering of every line is decided here.

use vstd::prelude::*;
use crate::decimal::append_padded2;
use crate::decimal::append_padded4;
use crate::decimal::padded2_of;
use crate::decimal::padded4_of;
use crate::text::views_of;
use chrono::Datelike;
use chrono::Timelike;

verus! {

/// One event from the sidecar's combined output stream: a line on standard
/// output, a line on standard error, or anything else (ignored).
pub enum ChildEvent {
    Stdout(String),
    Stderr(String),
    Other,
}

/// A wall-clock reading broken into calendar fields.
#[derive(Clone, Copy)]
pub struct LocalTime {
    pub year: i32,
    pub month: u8,
    pub day: u8,
    pub hour: u8,
    pub minute: u8,
    pub second: u8,
}

/// Field ranges every clock reading satisfies.
pub open spec fn local_time_wf(t: LocalTime) -> bool {
    &&& 1 <= t.month <= 12
    &&& 1 <= t.day <= 31
    &&& t.hour <= 23
    &&& t.minute <= 59
    &&& t.second <= 59
}

/// Relies on chrono::Local::now and the chrono::Datelike / chrono::Timelike
/// accessors year, month, day, hour, minute and second: month ranges over
/// 1..=12, day over 1..=31, hour over 0..=23, minute and second over 0..=59.
/// The reading depends on the clock, so nothing relates two calls.
#[verifier::external_body]
pub fn now_local() -> (t: LocalTime)
    ensures
        local_time_wf(t),
{
    let now = chrono::Local::now();
    LocalTime {
        year: now.year(),
        month: now.month() as u8,
        day: now.day() as u8,
        hour: now.hour() as u8,
        minute: now.minute() as u8,
        second: now.second() as u8,
    }
}

/// The digits of a calendar year: zero-padded to four digits, a leading
/// minus sign for years before year zero.
pub open spec fn year_digits_of(y: int) -> Seq<char> {
    if y < 0 {
        seq!['-'] + padded4_of((-y) as nat)
    } else {
        padded4_of(y as nat)
    }
}

/// The bracketed timestamp prefix of a log line.
pub open spec fn timestamp_of(t: LocalTime) -> Seq<char> {
    seq!['['] + year_digits_of(t.year as int) + seq!['-'] + padded2_of(t.month as nat) + seq!['-']
        + padded2_of(t.day as nat) + seq![' '] + padded2_of(t.hour as nat) + seq![':'] + padded2_of(
        t.minute as nat,
    ) + seq![':'] + padded2_of(t.second as nat) + seq![']']
}

fn append_year(out: &mut String, y: i32)
    ensures
        final(out)@ == old(out)@ + year_digits_of(y as int),
{
    if y < 0 {
        out.append("-");
        let pos: i64 = -(y as i64);
        append_padded4(out, pos as u64);
        proof {
            reveal_strlit("-");
            assert(out@ =~= old(out)@ + year_digits_of(y as int));
        }
    } else {
        append_padded4(out, y as u64);
    }
}

/// Renders a clock reading as `[YYYY-MM-DD HH:MM:SS]`.
pub fn format_timestamp(t: &LocalTime) -> (s: String)
    ensures
        s@ == timestamp_of(*t),
{
    let mut s = String::from_str("[");
    append_year(&mut s, t.year);
    s.append("-");
    append_padded2(&mut s, t.month as u64);
    s.append("-");
    append_padded2(&mut s, t.day as u64);
    s.append(" ");
    append_padded2(&mut s, t.hour as u64);
    s.append(":");
    append_padded2(&mut s, t.minute as u64);
    s.append(":");
    append_padded2(&mut s, t.second as u64);
    s.append("]");
    proof {
        reveal_strlit("[");
        reveal_strlit("-");
        reveal_strlit(" ");
        reveal_strlit(":");
        reveal_strlit("]");
        assert(s@ =~= timestamp_of(*t));
    }
    s
}

/// The origin tag of a log line.
pub open spec fn tag_of(is_err: bool) -> Seq<char> {
    if is_err {
        "ERR"@
    } else {
        "INFO"@
    }
}

/// The full log line for one output line: tag, one space, timestamp, one
/// space, the line itself.
pub open spec fn log_line_of(is_err: bool, t: LocalTime, line: Seq<char>) -> Seq<char> {
    tag_of(is_err) + seq![' '] + timestamp_of(t) + seq![' '] + line
}

/// Renders one output line with its tag and a given timestamp.
pub fn render_line(is_err: bool, t: &LocalTime, line: &str) -> (s: String)
    ensures
        s@ == log_line_of(is_err, *t, line@),
{
    let mut s = if is_err {
        String::from_str("ERR")
    } else {
        String::from_str("INFO")
    };
    s.append(" ");
    let ts = format_timestamp(t);
    s.append(ts.as_str());
    s.append(" ");
    s.append(line);
    proof {
        reveal_strlit(" ");
        assert(s@ =~= log_line_of(is_err, *t, line@));
    }
    s
}

/// The log line an event produces at a given clock reading: `None` for
/// events that are not output lines.
pub open spec fn event_line_of(ev: ChildEvent, t: LocalTime) -> Option<Seq<char>> {
    match ev {
        ChildEvent::Stdout(l) => Option::Some(log_line_of(false, t, l@)),
        ChildEvent::Stderr(l) => Option::Some(log_line_of(true, t, l@)),
        ChildEvent::Other => Option::<Seq<char>>::None,
    }
}

/// Renders one event against a given clock reading.
pub fn render_event(ev: &ChildEvent, t: &LocalTime) -> (r: Option<String>)
    ensures
        (r is Some) == (event_line_of(*ev, *t) is Some),
        r matches Some(s) ==> s@ == event_line_of(*ev, *t).unwrap(),
{
    match ev {
        ChildEvent::Stdout(l) => Some(render_line(false, t, l.as_str())),
        ChildEvent::Stderr(l) => Some(render_line(true, t, l.as_str())),
        ChildEvent::Other => None,
    }
}

/// Renders one event at the current local time: what the relay does for each
/// event it receives. Exactly the output-line events produce a line; the line
/// is the event's payload behind the right tag and a well-formed timestamp.
pub fn relay_line(ev: &ChildEvent) -> (r: Option<String>)
    ensures
        (*ev is Other) ==> r is None,
        !(*ev is Other) ==> (r matches Some(s) && (exists|t: LocalTime|
            local_time_wf(t) && event_line_of(*ev, t) == Option::Some(s@))),
{
    let t = now_local();
    let r = render_event(ev, &t);
    proof {
        if !(*ev is Other) {
            assert(local_time_wf(t) && event_line_of(*ev, t) == Option::Some(r.unwrap()@));
        }
    }
    r
}

/// The sequence of log lines a sequence of events produces when the `i`-th
/// event is stamped with the `i`-th clock reading: output-line events each
/// contribute one line, in arrival order; other events contribute nothing.
pub open spec fn rendered_of(events: Seq<ChildEvent>, times: Seq<LocalTime>) -> Seq<Seq<char>>
    decreases events.len(),
{
    if events.len() == 0 {
        Seq::<Seq<char>>::empty()
    } else {
        let pre = rendered_of(events.drop_last(), times.drop_last());
        match event_line_of(events.last(), times.last()) {
            Option::Some(l) => pre + seq![l],
            Option::None => pre,
        }
    }
}

/// Renders a batch of events against given clock readings, preserving the
/// arrival order: the log holds one correctly tagged line per output-line
/// event, in the order the events arrived.
pub fn render_events(events: &Vec<ChildEvent>, times: &Vec<LocalTime>) -> (lines: Vec<String>)
    requires
        times@.len() == events@.len(),
    ensures
        views_of(lines@) == rendered_of(events@, times@),
{
    let mut lines: Vec<String> = Vec::new();
    let mut i: usize = 0;
    while i < events.len()
        invariant
            i <= events@.len(),
            times@.len() == events@.len(),
            views_of(lines@) == rendered_of(events@.take(i as int), times@.take(i as int)),
        decreases events@.len() - i,
    {
        let r = render_event(&events[i], &times[i]);
        let ghost old_lines = lines@;
        match r {
            Some(s) => lines.push(s),
            None => (),
        }
        proof {
            assert(events@.take(i + 1).drop_last() =~= events@.take(i as int));
            assert(times@.take(i + 1).drop_last() =~= times@.take(i as int));
            assert(events@.take(i + 1).last() == events@[i as int]);
            assert(times@.take(i + 1).last() == times@[i as int]);
            assert(views_of(lines@) =~= rendered_of(events@.take(i + 1), times@.take(i + 1)));
        }
        i = i + 1;
    }
    proof {
        assert(events@.take(events@.len() as int) =~= events@);
        assert(times@.take(times@.len() as int) =~= times@);
    }
    lines
}

} // verus!
