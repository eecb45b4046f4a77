//! The pump: turns the backend's output and lifecycle events into log
//! lines, and stops at the termination event.

use vstd::prelude::*;
use vstd::string::StringExecFns;
use crate::log::Log;
use crate::render::decimal_int;
use crate::render::render_i32;

verus! {

/// One event observed on the backend's standard streams or lifecycle.
/// `Other` stands for any further event kind a host runtime may deliver;
/// such events are ignored.
pub enum ProcessEvent {
    Stdout(Vec<u8>),
    Stderr(Vec<u8>),
    Terminated(Option<i32>),
    Other,
}

/// What `String::from_utf8_lossy` returns for a byte sequence: a function
/// of the bytes alone.
pub uninterp spec fn lossy_utf8(bytes: Seq<u8>) -> Seq<char>;

/// Relies on `String::from_utf8_lossy`: decodes the bytes as UTF-8,
/// substituting the replacement character for invalid sequences; the result
/// depends on the bytes alone, and the call never fails.
#[verifier::external_body]
fn decode_lossy(bytes: &[u8]) -> (text: String)
    ensures
        text@ == lossy_utf8(bytes@),
{
    String::from_utf8_lossy(bytes).into_owned()
}

/// The fixed prefix that tags every line of the backend's output.
pub open spec fn tag() -> Seq<char> {
    "[go-sea] "@
}

/// The log line for one chunk of backend output.
pub open spec fn output_line(bytes: Seq<u8>) -> Seq<char> {
    tag() + lossy_utf8(bytes)
}

/// The rendering of an optional exit code: its decimal digits, or the
/// marker for an unavailable code.
pub open spec fn code_text(code: Option<i32>) -> Seq<char> {
    match code {
        Option::Some(c) => decimal_int(c as int),
        Option::None => "unknown"@,
    }
}

/// The log line for the backend's termination.
pub open spec fn termination_line(code: Option<i32>) -> Seq<char> {
    tag() + "Process terminated with code: "@ + code_text(code)
}

/// The log entries one event produces: stdout on the ordinary channel,
/// stderr on the error channel, the termination line, nothing for an
/// unrecognized event.
pub open spec fn event_entries(event: ProcessEvent) -> Seq<(bool, Seq<char>)> {
    match event {
        ProcessEvent::Stdout(bytes) => seq![(false, output_line(bytes@))],
        ProcessEvent::Stderr(bytes) => seq![(true, output_line(bytes@))],
        ProcessEvent::Terminated(code) => seq![(false, termination_line(code))],
        ProcessEvent::Other => Seq::<(bool, Seq<char>)>::empty(),
    }
}

/// The log entries the pump produces for an event sequence: the entries of
/// each event in order, up to and including the first termination event.
pub open spec fn pump_entries(events: Seq<ProcessEvent>) -> Seq<(bool, Seq<char>)>
    decreases events.len(),
{
    if events.len() == 0 {
        Seq::<(bool, Seq<char>)>::empty()
    } else if events[0] is Terminated {
        event_entries(events[0])
    } else {
        event_entries(events[0]) + pump_entries(events.drop_first())
    }
}

/// How many events the pump observes: every event up to and including the
/// first termination event, or all of them if none terminates.
pub open spec fn observed(events: Seq<ProcessEvent>) -> nat
    decreases events.len(),
{
    if events.len() == 0 {
        0
    } else if events[0] is Terminated {
        1
    } else {
        1 + observed(events.drop_first())
    }
}

/// Whether the sequence holds a termination event.
pub open spec fn has_termination(events: Seq<ProcessEvent>) -> bool {
    exists|i: int| 0 <= i < events.len() && events[i] is Terminated
}

/// Whether a line begins with the backend's fixed tag.
pub open spec fn tagged(line: Seq<char>) -> bool {
    line.len() >= tag().len() && line.subrange(0, tag().len() as int) == tag()
}

/// Every line one event produces is tagged with the backend's prefix.
pub proof fn lemma_event_entries_tagged(event: ProcessEvent)
    ensures
        forall|i: int|
            0 <= i < event_entries(event).len() ==> tagged(
                #[trigger] event_entries(event)[i].1,
            ),
{
    reveal_strlit("[go-sea] ");
    match event {
        ProcessEvent::Stdout(bytes) => {
            assert(output_line(bytes@).subrange(0, tag().len() as int) =~= tag());
        },
        ProcessEvent::Stderr(bytes) => {
            assert(output_line(bytes@).subrange(0, tag().len() as int) =~= tag());
        },
        ProcessEvent::Terminated(code) => {
            assert(termination_line(code).subrange(0, tag().len() as int) =~= tag());
        },
        ProcessEvent::Other => {
        },
    }
}

/// Every line the pump produces is tagged with the backend's prefix.
pub proof fn lemma_pump_entries_tagged(events: Seq<ProcessEvent>)
    ensures
        forall|i: int|
            0 <= i < pump_entries(events).len() ==> tagged(
                #[trigger] pump_entries(events)[i].1,
            ),
    decreases events.len(),
{
    if events.len() > 0 {
        lemma_event_entries_tagged(events[0]);
        if !(events[0] is Terminated) {
            lemma_pump_entries_tagged(events.drop_first());
            assert forall|i: int| 0 <= i < pump_entries(events).len() implies tagged(
                #[trigger] pump_entries(events)[i].1,
            ) by {
                let head = event_entries(events[0]);
                if i >= head.len() {
                    assert(pump_entries(events)[i] == pump_entries(events.drop_first())[i
                        - head.len()]);
                }
            }
        }
    }
}

/// Renders an optional exit code.
fn code_string(code: &Option<i32>) -> (s: String)
    ensures
        s@ == code_text(*code),
{
    match code {
        Option::Some(c) => render_i32(*c),
        Option::None => String::from_str("unknown"),
    }
}

/// Handles one event: logs its entries and says whether the pump stops.
pub fn handle_event(event: &ProcessEvent, log: &mut Log) -> (stop: bool)
    ensures
        stop == (*event is Terminated),
        final(log)@ == old(log)@ + event_entries(*event),
{
    match event {
        ProcessEvent::Stdout(bytes) => {
            let text = decode_lossy(bytes.as_slice());
            let line = String::from_str("[go-sea] ").concat(text.as_str());
            proof {
                assert(line@ =~= output_line(bytes@));
            }
            log.info(line);
            false
        },
        ProcessEvent::Stderr(bytes) => {
            let text = decode_lossy(bytes.as_slice());
            let line = String::from_str("[go-sea] ").concat(text.as_str());
            proof {
                assert(line@ =~= output_line(bytes@));
            }
            log.error(line);
            false
        },
        ProcessEvent::Terminated(code) => {
            let text = code_string(code);
            let line = String::from_str("[go-sea] ").concat(
                "Process terminated with code: ",
            ).concat(text.as_str());
            proof {
                assert(line@ =~= termination_line(*code));
            }
            log.info(line);
            true
        },
        ProcessEvent::Other => {
            proof {
                assert(log@ =~= old(log)@ + event_entries(*event));
            }
            false
        },
    }
}

/// Extending the pumped prefix by one unterminated-so-far event appends
/// exactly that event's entries and observes exactly one more event.
pub proof fn lemma_pump_step(events: Seq<ProcessEvent>, i: int)
    requires
        0 <= i < events.len(),
        forall|j: int| 0 <= j < i ==> !(events[j] is Terminated),
    ensures
        pump_entries(events.take(i + 1)) == pump_entries(events.take(i)) + event_entries(
            events[i],
        ),
        observed(events.take(i + 1)) == observed(events.take(i)) + 1,
    decreases i,
{
    if i == 0 {
        assert(events.take(1)[0] == events[0]);
        assert(events.take(0) =~= Seq::<ProcessEvent>::empty());
        assert(events.take(1).drop_first() =~= Seq::<ProcessEvent>::empty());
        assert(observed(Seq::<ProcessEvent>::empty()) == 0);
        assert(pump_entries(Seq::<ProcessEvent>::empty()) =~= Seq::<(bool, Seq<char>)>::empty());
        assert(pump_entries(events.take(1)) =~= pump_entries(events.take(0)) + event_entries(
            events[0],
        ));
    } else {
        let rest = events.drop_first();
        assert(forall|j: int| 0 <= j < i - 1 ==> !(#[trigger] (rest[j]) is Terminated)) by {
            assert(forall|j: int| 0 <= j < i - 1 ==> rest[j] == events[j + 1]);
        }
        lemma_pump_step(rest, i - 1);
        assert(events.take(i + 1).drop_first() =~= rest.take(i));
        assert(events.take(i).drop_first() =~= rest.take(i - 1));
        assert(rest[i - 1] == events[i]);
        assert(pump_entries(events.take(i + 1)) =~= pump_entries(events.take(i)) + event_entries(
            events[i],
        ));
    }
}

/// The pump ignores everything after the first termination event: the
/// entries and the observation count of the whole sequence are those of the
/// prefix that ends at that event.
pub proof fn lemma_pump_stops_at_termination(events: Seq<ProcessEvent>, k: int)
    requires
        0 <= k < events.len(),
        events[k] is Terminated,
        forall|j: int| 0 <= j < k ==> !(events[j] is Terminated),
    ensures
        pump_entries(events) == pump_entries(events.take(k + 1)),
        observed(events) == k + 1,
    decreases k,
{
    if k == 0 {
        assert(events.take(1)[0] == events[0]);
    } else {
        let rest = events.drop_first();
        assert(forall|j: int| 0 <= j < k - 1 ==> !(#[trigger] (rest[j]) is Terminated)) by {
            assert(forall|j: int| 0 <= j < k - 1 ==> rest[j] == events[j + 1]);
        }
        assert(rest[k - 1] == events[k]);
        lemma_pump_stops_at_termination(rest, k - 1);
        assert(events.take(k + 1).drop_first() =~= rest.take(k));
        assert(events.take(k + 1)[0] == events[0]);
    }
}

/// Without a termination event the pump observes the whole sequence.
pub proof fn lemma_pump_observes_all(events: Seq<ProcessEvent>)
    requires
        forall|j: int| 0 <= j < events.len() ==> !(events[j] is Terminated),
    ensures
        observed(events) == events.len(),
    decreases events.len(),
{
    if events.len() > 0 {
        let rest = events.drop_first();
        assert(forall|j: int| 0 <= j < rest.len() ==> !(#[trigger] (rest[j]) is Terminated)) by {
            assert(forall|j: int| 0 <= j < rest.len() ==> rest[j] == events[j + 1]);
        }
        lemma_pump_observes_all(rest);
    }
}

/// Once the backend terminates, the pump observes exactly one termination
/// event, it is the last event observed, and no event after it is observed:
/// with `k` the position of the first termination event, the pump observes
/// the events up to and including position `k` and no others.
pub proof fn lemma_pump_observes_single_termination(events: Seq<ProcessEvent>, k: int)
    requires
        0 <= k < events.len(),
        events[k] is Terminated,
        forall|j: int| 0 <= j < k ==> !(events[j] is Terminated),
    ensures
        observed(events) == k + 1,
        forall|j: int| 0 <= j < observed(events) ==> ((events[j] is Terminated) <==> j == k),
{
    lemma_pump_stops_at_termination(events, k);
}

} // verus!
