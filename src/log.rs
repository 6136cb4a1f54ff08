use vstd::prelude::*;
use vstd::string::*;

use crate::text::{join, join_text, texts};

verus! {

/// The severity of a log line that a worker emits.
#[derive(Clone, Copy, Debug, PartialEq, Eq, Structural)]
pub enum LogLevel {
    Trace,
    Debug,
    Info,
    Warn,
    Error,
    Critical,
}

/// One event of a worker's output stream.
#[derive(Clone, Debug)]
pub enum LogEvent {
    Stdout { message: String },
    Stderr { message: String },
    Log { level: LogLevel, context: String, message: String },
}

/// The text that an event carries.
pub open spec fn event_text(e: LogEvent) -> Seq<char> {
    match e {
        LogEvent::Stdout { message } => message@,
        LogEvent::Stderr { message } => message@,
        LogEvent::Log { message, .. } => message@,
    }
}

/// The texts of a sequence of events.
pub open spec fn event_texts(events: Seq<LogEvent>) -> Seq<Seq<char>> {
    events.map_values(|e: LogEvent| event_text(e))
}

/// All the text of a sequence of events, one after another.
pub open spec fn output_text(events: Seq<LogEvent>) -> Seq<char> {
    join_text(event_texts(events), ""@)
}

/// A line without the carriage return that ends it, if any.
pub open spec fn strip_cr(line: Seq<char>) -> Seq<char> {
    if line.len() > 0 && line.last() == '\r' {
        line.drop_last()
    } else {
        line
    }
}

/// Reading `t` from the left: the lines that a newline has ended so far, and the
/// text after the last newline.
pub open spec fn line_state(t: Seq<char>) -> (Seq<Seq<char>>, Seq<char>)
    decreases t.len(),
{
    if t.len() == 0 {
        (Seq::empty(), Seq::empty())
    } else {
        let (done, current) = line_state(t.drop_last());
        if t.last() == '\n' {
            (done.push(strip_cr(current)), Seq::empty())
        } else {
            (done, current.push(t.last()))
        }
    }
}

/// The lines of a text: split at each newline, a carriage return before a newline
/// dropped, and no empty line after a final newline.
pub open spec fn lines_of(t: Seq<char>) -> Seq<Seq<char>> {
    let (done, current) = line_state(t);
    if current.len() == 0 {
        done
    } else {
        done.push(current)
    }
}

/// An event that a worker wrote to its standard output.
pub fn stdout_event(s: &str) -> (r: LogEvent)
    ensures
        r matches LogEvent::Stdout { message } && message@ == s@,
{
    LogEvent::Stdout { message: String::from_str(s) }
}

/// An event that a worker wrote to its standard error.
pub fn stderr_event(s: &str) -> (r: LogEvent)
    ensures
        r matches LogEvent::Stderr { message } && message@ == s@,
{
    LogEvent::Stderr { message: String::from_str(s) }
}

fn starts_with(text: &str, prefix: &str) -> (r: bool)
    ensures
        r == prefix@.is_prefix_of(text@),
{
    let n = prefix.unicode_len();
    let m = text.unicode_len();
    if n > m {
        return false;
    }
    let mut i: usize = 0;
    while i < n
        invariant
            n == prefix@.len(),
            m == text@.len(),
            n <= m,
            i <= n,
            forall|j: int| 0 <= j < i ==> prefix@[j] == text@[j],
        decreases n - i,
    {
        if prefix.get_char(i) != text.get_char(i) {
            return false;
        }
        i = i + 1;
    }
    assert(prefix@ =~= text@.subrange(0, n as int));
    true
}

/// Whether the event is standard output whose text starts with `s`.
pub fn stdout_event_starting_with(event: &LogEvent, s: &str) -> (r: bool)
    ensures
        r == (match *event {
            LogEvent::Stdout { message } => s@.is_prefix_of(message@),
            _ => false,
        }),
{
    match event {
        LogEvent::Stdout { message } => starts_with(message.as_str(), s),
        _ => false,
    }
}

/// The text that an event carries.
pub fn log_event_to_string(event: &LogEvent) -> (r: String)
    ensures
        r@ == event_text(*event),
{
    match event {
        LogEvent::Stdout { message } => message.clone(),
        LogEvent::Stderr { message } => message.clone(),
        LogEvent::Log { message, .. } => message.clone(),
    }
}

/// All the text of the events, one after another.
pub fn output_of(events: &Vec<LogEvent>) -> (r: String)
    ensures
        r@ == output_text(events@),
{
    let mut texts_so_far: Vec<String> = Vec::new();
    let mut i: usize = 0;
    while i < events.len()
        invariant
            i <= events.len(),
            texts_so_far@.len() == i,
            texts(texts_so_far@) =~= event_texts(events@.subrange(0, i as int)),
        decreases events.len() - i,
    {
        let t = log_event_to_string(&events[i]);
        let ghost before = texts_so_far@;
        texts_so_far.push(t);
        proof {
            let want = event_texts(events@.subrange(0, i as int + 1));
            assert forall|j: int| 0 <= j < i + 1 implies texts(texts_so_far@)[j] == want[j] by {
                if j < i {
                    assert(texts_so_far@[j] == before[j]);
                    assert(texts(before)[j] == event_text(events@[j]));
                }
            }
            assert(texts(texts_so_far@) =~= want);
        }
        i = i + 1;
    }
    assert(events@.subrange(0, i as int) =~= events@);
    join(&texts_so_far, "")
}

/// Splits a text into its lines: at each newline, dropping a carriage return
/// before it, with no empty line after a final newline.
pub fn lines(text: &str) -> (r: Vec<String>)
    ensures
        texts(r@) == lines_of(text@),
{
    let n = text.unicode_len();
    let mut out: Vec<String> = Vec::new();
    let mut start: usize = 0;
    let mut i: usize = 0;
    while i < n
        invariant
            n == text@.len(),
            start <= i <= n,
            line_state(text@.subrange(0, i as int)) == (
                texts(out@),
                text@.subrange(start as int, i as int),
            ),
        decreases n - i,
    {
        let c = text.get_char(i);
        let ghost prefix = text@.subrange(0, i as int + 1);
        assert(prefix.drop_last() =~= text@.subrange(0, i as int));
        assert(prefix.last() == c);
        if c == '\n' {
            let ghost current = text@.subrange(start as int, i as int);
            let end = if i > start && text.get_char(i - 1) == '\r' {
                i - 1
            } else {
                i
            };
            assert(text@.subrange(start as int, end as int) =~= strip_cr(current));
            let line = String::from_str(text.substring_char(start, end));
            let ghost before = out@;
            out.push(line);
            assert(texts(out@) =~= texts(before).push(strip_cr(current)));
            start = i + 1;
        } else {
            assert(text@.subrange(start as int, i as int + 1) =~= text@.subrange(
                start as int,
                i as int,
            ).push(c));
        }
        i = i + 1;
    }
    assert(text@.subrange(0, n as int) =~= text@);
    if start < n {
        let line = String::from_str(text.substring_char(start, n));
        let ghost before = out@;
        out.push(line);
        assert(texts(out@) =~= texts(before).push(text@.subrange(start as int, n as int)));
    }
    out
}

/// The lines of all the text of the events, taken together.
pub fn events_to_lines(events: &Vec<LogEvent>) -> (r: Vec<String>)
    ensures
        texts(r@) == lines_of(output_text(events@)),
{
    let full = output_of(events);
    lines(full.as_str())
}

/// Whether a batch of stream items holds the marker that ends the stream.
pub fn holds_end_marker(events: &Vec<Option<LogEvent>>) -> (r: bool)
    ensures
        r == exists|j: int| 0 <= j < events@.len() && events@[j] is None,
{
    let mut i: usize = 0;
    while i < events.len()
        invariant
            i <= events.len(),
            forall|j: int| 0 <= j < i ==> events@[j] is Some,
        decreases events.len() - i,
    {
        if events[i].is_none() {
            return true;
        }
        i = i + 1;
    }
    false
}

/// Takes in one more item received from a stream being drained: `None` when the
/// stream has closed, `Some(None)` for the end marker, `Some(Some(e))` for an event.
/// Events are kept; the result says whether to go on receiving.
pub fn drain_step(events: &mut Vec<Option<LogEvent>>, received: Option<Option<LogEvent>>) -> (go_on: bool)
    ensures
        go_on == (received matches Some(Some(_))),
        go_on ==> final(events)@ == old(events)@.push(received.unwrap()),
        !go_on ==> final(events)@ == old(events)@,
{
    match received {
        Some(Some(event)) => {
            events.push(Some(event));
            true
        },
        _ => false,
    }
}

} // verus!
