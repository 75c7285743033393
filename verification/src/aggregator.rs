//! The streaming aggregator: folds decoded events, in arrival order,
//! into the accumulated text, the stop reason, and the finalized tool
//! calls of one round.
//!
//! At most one partial tool call is open at a time.  Its JSON input
//! grows fragment by fragment and is parsed at block-stop; a buffer that
//! is not valid JSON degrades to the empty object rather than failing
//! the round.

use crate::events::{decode_line, line_event, Event, EventView};
use crate::json::{parse_json_or_empty, spec_parse_or_empty};
use crate::messages::{call_views, CallView, ChatResponse, RespView, ToolCall};
use vstd::prelude::*;
use vstd::string::*;

verus! {

/// A tool call being assembled between its block-start and block-stop.
struct PartialToolCall {
    id: String,
    name: String,
    buffer: String,
}

/// Mathematical image of an open partial tool call.
pub struct OpenView {
    pub id: Seq<char>,
    pub name: Seq<char>,
    pub buffer: Seq<char>,
}

/// Mathematical image of the aggregator state.
pub struct AggView {
    pub text: Seq<char>,
    pub stop_reason: Seq<char>,
    pub tool_calls: Seq<CallView>,
    pub open: Option<OpenView>,
}

/// The state every round starts from: no text, stop reason `unknown`,
/// no tool calls, no open block.
pub open spec fn init_state() -> AggView {
    AggView {
        text: Seq::empty(),
        stop_reason: "unknown"@,
        tool_calls: Seq::empty(),
        open: None,
    }
}

/// The tool call an open block finalizes to at block-stop: its buffer
/// parsed as JSON, with the empty object standing in for a malformed
/// buffer.
pub open spec fn finalized_call(o: OpenView) -> CallView {
    CallView { id: o.id, name: o.name, input: spec_parse_or_empty(o.buffer) }
}

/// The transition one event applies to the aggregator state.
pub open spec fn step(s: AggView, e: EventView) -> AggView {
    match e {
        EventView::ToolUseStart { id, name } => AggView {
            open: Some(OpenView { id, name, buffer: Seq::empty() }),
            ..s
        },
        EventView::TextStart => s,
        EventView::TextDelta { text } => AggView { text: s.text + text, ..s },
        EventView::InputJsonDelta { fragment } => match s.open {
            Some(o) => AggView {
                open: Some(OpenView { buffer: o.buffer + fragment, ..o }),
                ..s
            },
            None => s,
        },
        EventView::BlockStop => match s.open {
            Some(o) => AggView { tool_calls: s.tool_calls.push(finalized_call(o)), open: None, ..s },
            None => s,
        },
        EventView::MessageDelta { stop_reason } => match stop_reason {
            Some(r) => AggView { stop_reason: r, ..s },
            None => s,
        },
        EventView::Ignored => s,
    }
}

/// The text fragment an event hands to the caller's chunk sink.
pub open spec fn emitted_text(e: EventView) -> Option<Seq<char>> {
    match e {
        EventView::TextDelta { text } => Some(text),
        _ => None,
    }
}

/// The state after a whole sequence of events, applied in order.
pub open spec fn run(s: AggView, evs: Seq<EventView>) -> AggView
    decreases evs.len(),
{
    if evs.len() == 0 {
        s
    } else {
        run(step(s, evs[0]), evs.drop_first())
    }
}

/// The streaming aggregator.
pub struct Aggregator {
    text: String,
    stop_reason: String,
    tool_calls: Vec<ToolCall>,
    open: Option<PartialToolCall>,
}

impl View for Aggregator {
    type V = AggView;

    closed spec fn view(&self) -> AggView {
        AggView {
            text: self.text@,
            stop_reason: self.stop_reason@,
            tool_calls: call_views(self.tool_calls@),
            open: match self.open {
                Some(p) => Some(OpenView { id: p.id@, name: p.name@, buffer: p.buffer@ }),
                None => None,
            },
        }
    }
}

impl Aggregator {
    /// A fresh aggregator in the initial state.
    pub fn new() -> (a: Aggregator)
        ensures
            a@ == init_state(),
    {
        let a = Aggregator {
            text: String::new(),
            stop_reason: String::from_str("unknown"),
            tool_calls: Vec::new(),
            open: None,
        };
        proof {
            assert(a@.text =~= init_state().text);
            assert(a@.tool_calls =~= init_state().tool_calls);
        }
        a
    }

    /// Apply one event; the returned fragment, if any, is the text this
    /// event hands to the chunk sink, exactly once and in arrival order.
    pub fn apply_event(&mut self, e: Event) -> (frag: Option<String>)
        ensures
            final(self)@ == step(old(self)@, e@),
            (match frag {
                Some(s) => emitted_text(e@) == Some(s@),
                None => emitted_text(e@) is None,
            }),
    {
        match e {
            Event::ToolUseStart { id, name } => {
                self.open = Some(PartialToolCall { id, name, buffer: String::new() });
                None
            },
            Event::TextStart => None,
            Event::TextDelta { text } => {
                self.text.append(text.as_str());
                Some(text)
            },
            Event::InputJsonDelta { fragment } => {
                match self.open.take() {
                    Some(mut p) => {
                        p.buffer.append(fragment.as_str());
                        self.open = Some(p);
                    },
                    None => {},
                }
                None
            },
            Event::BlockStop => {
                match self.open.take() {
                    Some(p) => {
                        let input = parse_json_or_empty(p.buffer.as_str());
                        let ghost prior = call_views(self.tool_calls@);
                        self.tool_calls.push(ToolCall { id: p.id, name: p.name, input });
                        proof {
                            assert(call_views(self.tool_calls@) =~= prior.push(
                                finalized_call(old(self)@.open->0),
                            ));
                        }
                    },
                    None => {},
                }
                None
            },
            Event::MessageDelta { stop_reason } => {
                match stop_reason {
                    Some(r) => {
                        self.stop_reason = r;
                    },
                    None => {},
                }
                None
            },
            Event::Ignored => None,
        }
    }

    /// Decode one stream line and apply its event.
    pub fn process_line(&mut self, line: &str) -> (frag: Option<String>)
        ensures
            final(self)@ == step(old(self)@, line_event(line@)),
            (match frag {
                Some(s) => emitted_text(line_event(line@)) == Some(s@),
                None => emitted_text(line_event(line@)) is None,
            }),
    {
        let e = decode_line(line);
        self.apply_event(e)
    }

    /// Finish the round: the accumulated text, the stop reason, and the
    /// finalized tool calls.  An open block that never closed is
    /// discarded as incomplete.
    pub fn finish(self) -> (r: ChatResponse)
        ensures
            r@ == (RespView {
                text: self@.text,
                stop_reason: self@.stop_reason,
                tool_calls: self@.tool_calls,
            }),
    {
        ChatResponse {
            text: self.text,
            stop_reason: self.stop_reason,
            tool_calls: self.tool_calls,
        }
    }
}

/// Splitting a sequence of events splits the run.
pub proof fn lemma_run_append(s: AggView, a: Seq<EventView>, b: Seq<EventView>)
    ensures
        run(s, a + b) == run(run(s, a), b),
    decreases a.len(),
{
    if a.len() == 0 {
        assert(a + b =~= b);
    } else {
        assert((a + b)[0] == a[0]);
        assert((a + b).drop_first() =~= a.drop_first() + b);
        lemma_run_append(step(s, a[0]), a.drop_first(), b);
    }
}

/// The concatenation, in arrival order, of the text fragments that a
/// sequence of events delivers.
pub open spec fn concat_texts(evs: Seq<EventView>) -> Seq<char>
    decreases evs.len(),
{
    if evs.len() == 0 {
        Seq::empty()
    } else {
        (match evs[0] {
            EventView::TextDelta { text } => text,
            _ => Seq::empty(),
        }) + concat_texts(evs.drop_first())
    }
}

/// Law: chunk-boundary invariance.  However a text is split into delta
/// fragments, the aggregated text is the exact concatenation of the
/// fragments in arrival order; two streams whose fragments concatenate
/// to the same text aggregate to the same text.
pub proof fn lemma_text_concatenation(s: AggView, evs: Seq<EventView>)
    ensures
        run(s, evs).text == s.text + concat_texts(evs),
    decreases evs.len(),
{
    if evs.len() == 0 {
        assert(s.text + concat_texts(evs) =~= s.text);
    } else {
        lemma_text_concatenation(step(s, evs[0]), evs.drop_first());
        assert(run(s, evs).text =~= s.text + concat_texts(evs));
    }
}

/// Law: chunk-boundary invariance, stated between two streams.  Two
/// event sequences whose fragments concatenate to the same text — two
/// splits of one text across delta events — aggregate to the same final
/// text, from any two states that agree on the text so far.
pub proof fn lemma_chunk_boundary_invariance(
    s1: AggView,
    evs1: Seq<EventView>,
    s2: AggView,
    evs2: Seq<EventView>,
)
    requires
        s1.text == s2.text,
        concat_texts(evs1) == concat_texts(evs2),
    ensures
        run(s1, evs1).text == run(s2, evs2).text,
{
    lemma_text_concatenation(s1, evs1);
    lemma_text_concatenation(s2, evs2);
}

/// The `(id, name)` pairs of the tool-use starts in a sequence of
/// events, in arrival order.
pub open spec fn tool_starts(evs: Seq<EventView>) -> Seq<(Seq<char>, Seq<char>)>
    decreases evs.len(),
{
    if evs.len() == 0 {
        Seq::empty()
    } else {
        (match evs[0] {
            EventView::ToolUseStart { id, name } => seq![(id, name)],
            _ => Seq::empty(),
        }) + tool_starts(evs.drop_first())
    }
}

/// The `(id, name)` pairs of a sequence of finalized tool calls.
pub open spec fn call_keys(calls: Seq<CallView>) -> Seq<(Seq<char>, Seq<char>)> {
    calls.map_values(|c: CallView| (c.id, c.name))
}

/// Whether a sequence of events opens a new tool-use block only while
/// none is open (given whether one is open at the outset) and closes
/// every open block before it ends.
pub open spec fn well_nested(open: bool, evs: Seq<EventView>) -> bool
    decreases evs.len(),
{
    if evs.len() == 0 {
        !open
    } else {
        match evs[0] {
            EventView::ToolUseStart { .. } => !open && well_nested(true, evs.drop_first()),
            EventView::BlockStop => well_nested(false, evs.drop_first()),
            _ => well_nested(open, evs.drop_first()),
        }
    }
}

/// Law: tool-call correspondence.  Over any well-nested sequence of
/// events — however text blocks, deltas and unrecognized events
/// interleave — the finalized tool calls extend the existing ones by
/// exactly the tool-use starts, with the same ids and names in the same
/// relative order; in particular their number equals the number of
/// tool-use starts.
pub proof fn lemma_tool_call_correspondence(s: AggView, evs: Seq<EventView>)
    requires
        well_nested(s.open is Some, evs),
    ensures
        run(s, evs).open is None,
        call_keys(run(s, evs).tool_calls) == call_keys(s.tool_calls) + (match s.open {
            Some(o) => seq![(o.id, o.name)],
            None => Seq::<(Seq<char>, Seq<char>)>::empty(),
        }) + tool_starts(evs),
    decreases evs.len(),
{
    let goal = call_keys(s.tool_calls) + (match s.open {
        Some(o) => seq![(o.id, o.name)],
        None => Seq::<(Seq<char>, Seq<char>)>::empty(),
    }) + tool_starts(evs);
    if evs.len() == 0 {
        assert(call_keys(run(s, evs).tool_calls) =~= goal);
    } else {
        let s1 = step(s, evs[0]);
        lemma_tool_call_correspondence(s1, evs.drop_first());
        match evs[0] {
            EventView::BlockStop => {
                match s.open {
                    Some(o) => {
                        assert(call_keys(s1.tool_calls) =~= call_keys(s.tool_calls).push(
                            (o.id, o.name),
                        ));
                        assert(call_keys(run(s, evs).tool_calls) =~= goal);
                    },
                    None => {
                        assert(call_keys(run(s, evs).tool_calls) =~= goal);
                    },
                }
            },
            _ => {
                assert(call_keys(run(s, evs).tool_calls) =~= goal);
            },
        }
    }
}

/// Law: tool-call count.  From the initial state, a well-nested stream
/// finalizes exactly one tool call per tool-use start.
pub proof fn lemma_tool_call_count(evs: Seq<EventView>)
    requires
        well_nested(false, evs),
    ensures
        run(init_state(), evs).tool_calls.len() == tool_starts(evs).len(),
{
    lemma_tool_call_correspondence(init_state(), evs);
}

/// The JSON-input fragments a sequence of events carries, concatenated
/// in arrival order.
pub open spec fn concat_fragments(evs: Seq<EventView>) -> Seq<char>
    decreases evs.len(),
{
    if evs.len() == 0 {
        Seq::empty()
    } else {
        (match evs[0] {
            EventView::InputJsonDelta { fragment } => fragment,
            _ => Seq::empty(),
        }) + concat_fragments(evs.drop_first())
    }
}

/// Whether every event of a sequence is a JSON-input fragment.
pub open spec fn all_json_deltas(evs: Seq<EventView>) -> bool {
    forall|i: int| 0 <= i < evs.len() ==> evs[i] is InputJsonDelta
}

/// While a block is open, JSON fragments only grow its buffer.
proof fn lemma_buffer_growth(s: AggView, evs: Seq<EventView>)
    requires
        s.open is Some,
        all_json_deltas(evs),
    ensures
        run(s, evs) == (AggView {
            open: Some(
                OpenView { buffer: s.open->0.buffer + concat_fragments(evs), ..s.open->0 },
            ),
            ..s
        }),
    decreases evs.len(),
{
    if evs.len() == 0 {
        assert(s.open->0.buffer + concat_fragments(evs) =~= s.open->0.buffer);
    } else {
        lemma_buffer_growth(step(s, evs[0]), evs.drop_first());
        assert(run(s, evs).open->0.buffer =~= s.open->0.buffer + concat_fragments(evs));
    }
}

/// Law: partial-JSON reassembly.  A tool-use block whose input arrives
/// in any number of fragments finalizes, at block-stop, to exactly one
/// tool call whose input is the concatenation of the fragments parsed
/// as JSON — with the empty object where the whole is malformed.
pub proof fn lemma_input_reassembly(
    s: AggView,
    id: Seq<char>,
    name: Seq<char>,
    deltas: Seq<EventView>,
)
    requires
        all_json_deltas(deltas),
    ensures
        run(
            s,
            seq![EventView::ToolUseStart { id, name }] + deltas + seq![EventView::BlockStop],
        ).tool_calls == s.tool_calls.push(
            CallView { id, name, input: spec_parse_or_empty(concat_fragments(deltas)) },
        ),
{
    let start = seq![EventView::ToolUseStart { id, name }];
    let stop = seq![EventView::BlockStop];
    let evs = start + deltas + stop;
    assert(evs =~= start + (deltas + stop));
    lemma_run_append(s, start, deltas + stop);
    let s1 = run(s, start);
    assert(s1 == step(s, start[0])) by {
        reveal_with_fuel(run, 2);
        assert(start.drop_first() =~= Seq::<EventView>::empty());
    }
    lemma_run_append(s1, deltas, stop);
    lemma_buffer_growth(s1, deltas);
    let s2 = run(s1, deltas);
    assert(s2.open->0.buffer =~= concat_fragments(deltas));
    assert(run(s2, stop) == step(s2, stop[0])) by {
        reveal_with_fuel(run, 2);
        assert(stop.drop_first() =~= Seq::<EventView>::empty());
    }
}

/// The stop reason that the last reason-carrying message delta of a
/// sequence of events sets, if any.
pub open spec fn last_stop_reason(evs: Seq<EventView>) -> Option<Seq<char>>
    decreases evs.len(),
{
    if evs.len() == 0 {
        None
    } else {
        match last_stop_reason(evs.drop_first()) {
            Some(r) => Some(r),
            None => match evs[0] {
                EventView::MessageDelta { stop_reason: Some(r) } => Some(r),
                _ => None,
            },
        }
    }
}

/// Law: stop-reason default and overwrite.  The final stop reason is the
/// one carried by the last message delta that carries any, and the
/// starting value — `unknown` for a fresh aggregator — where none does;
/// a message delta without a reason changes nothing.
pub proof fn lemma_stop_reason(s: AggView, evs: Seq<EventView>)
    ensures
        run(s, evs).stop_reason == (match last_stop_reason(evs) {
            Some(r) => r,
            None => s.stop_reason,
        }),
    decreases evs.len(),
{
    if evs.len() > 0 {
        lemma_stop_reason(step(s, evs[0]), evs.drop_first());
    }
}

/// Law: stop-reason default.  From the initial state, a stream in which
/// no message delta carries a reason leaves the stop reason `unknown`.
pub proof fn lemma_stop_reason_default(evs: Seq<EventView>)
    requires
        last_stop_reason(evs) is None,
    ensures
        run(init_state(), evs).stop_reason == "unknown"@,
{
    lemma_stop_reason(init_state(), evs);
}

} // verus!
