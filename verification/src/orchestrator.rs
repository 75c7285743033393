//! The orchestration loop's decisions: what one aggregated response does
//! to the conversation.
//!
//! The conversation owns an append-only history.  Each turn sends the
//! history, aggregates a response, and then either finishes with the
//! response text, or records the requested tool calls, executes them
//! sequentially in arrival order, feeds the results back, and sends
//! again — until a round limit bounds the back-and-forth.  Sending
//! itself is transport work and stays outside the library; this module
//! holds every decision in between.

use crate::json::clone_json;
use crate::messages::{
    msg_views, tool_use_blocks, BlockView, CallView, ChatResponse, ContentView, Message, MsgView,
    Role, ToolCall,
};
use crate::registry::{ToolError, ToolExecutor, ToolRegistry};
use vstd::prelude::*;
use vstd::string::*;

verus! {

/// The result text fed back for a request to a name nobody registered.
pub open spec fn spec_unknown_tool_text(name: Seq<char>) -> Seq<char> {
    "Unknown tool: "@ + name
}

/// The result text fed back when a tool reports its own failure.
pub open spec fn spec_tool_error_text(message: Seq<char>) -> Seq<char> {
    "Tool error: "@ + message
}

/// Render the result text for a request to an unregistered name.
fn unknown_tool_text(name: &str) -> (r: String)
    ensures
        r@ == spec_unknown_tool_text(name@),
{
    let mut s = String::from_str("Unknown tool: ");
    s.append(name);
    s
}

/// Render the result text for a tool's own failure.
fn tool_error_text(message: &str) -> (r: String)
    ensures
        r@ == spec_tool_error_text(message@),
{
    let mut s = String::from_str("Tool error: ");
    s.append(message);
    s
}

/// Whether `text` is a result text the executor `e` can stand behind
/// for `input`: an output the tool admits, or the tool-error rendering
/// of a failure message it admits.
pub open spec fn admitted_result_text<E: ToolExecutor>(
    e: E,
    input: serde_json::Value,
    text: Seq<char>,
) -> bool {
    ||| e.admits(input, Ok(text))
    ||| exists|m: Seq<char>| e.admits(input, Err(m)) && text == spec_tool_error_text(m)
}

/// Execute each tool call sequentially, in arrival order, pairing each
/// result with the call's id.  An execution failure becomes an
/// error-describing result string and never aborts the siblings; a call
/// to an unregistered name yields exactly the unknown-tool text, and a
/// call to a registered name yields a text its executor stands behind —
/// an admitted output, or the tool-error rendering of an admitted
/// failure.
pub fn run_tool_calls<E: ToolExecutor>(registry: &ToolRegistry<E>, calls: &Vec<ToolCall>) -> (results: Vec<
    (String, String),
>)
    requires
        registry.wf(),
    ensures
        results@.len() == calls@.len(),
        forall|i: int| 0 <= i < calls@.len() ==> (#[trigger] results@[i]).0@ == calls@[i]@.id,
        forall|i: int|
            0 <= i < calls@.len() && !registry.registered(calls@[i]@.name) ==> (
            #[trigger] results@[i]).1@ == spec_unknown_tool_text(calls@[i]@.name),
        forall|i: int|
            0 <= i < calls@.len() && registry.registered(calls@[i]@.name)
                ==> admitted_result_text(
                registry.lookup(calls@[i]@.name),
                calls@[i]@.input,
                (#[trigger] results@[i]).1@,
            ),
{
    let mut results: Vec<(String, String)> = Vec::new();
    let mut i: usize = 0;
    while i < calls.len()
        invariant
            registry.wf(),
            i <= calls@.len(),
            results@.len() == i,
            forall|j: int| 0 <= j < i ==> (#[trigger] results@[j]).0@ == calls@[j]@.id,
            forall|j: int|
                0 <= j < i && !registry.registered(calls@[j]@.name) ==> (
                #[trigger] results@[j]).1@ == spec_unknown_tool_text(calls@[j]@.name),
            forall|j: int|
                0 <= j < i && registry.registered(calls@[j]@.name) ==> admitted_result_text(
                    registry.lookup(calls@[j]@.name),
                    calls@[j]@.input,
                    (#[trigger] results@[j]).1@,
                ),
        decreases calls@.len() - i,
    {
        let call = &calls[i];
        let text = match registry.execute(call.name.as_str(), clone_json(&call.input)) {
            Ok(output) => output,
            Err(ToolError::UnknownTool { name }) => unknown_tool_text(name.as_str()),
            Err(ToolError::Failed { message }) => tool_error_text(message.as_str()),
        };
        results.push((call.id.clone(), text));
        i = i + 1;
    }
    results
}

/// What the orchestrator decides after one aggregated response.
pub enum TurnStep {
    /// Tool results were fed back; send the grown history again.
    SendAgain,
    /// The model answered in plain text; the turn is over.
    Finished { text: String },
    /// The round limit was reached while tool calls kept recurring; the
    /// turn fails, with the partial history kept for diagnostics.
    ToolLoopExceeded,
}

/// The bare kind of a decision, for stating laws about the loop.
pub enum StepKind {
    SendAgain,
    Finished,
    ToolLoopExceeded,
}

/// The kind of a decision.
pub open spec fn kind_of(s: TurnStep) -> StepKind {
    match s {
        TurnStep::SendAgain => StepKind::SendAgain,
        TurnStep::Finished { .. } => StepKind::Finished,
        TurnStep::ToolLoopExceeded => StepKind::ToolLoopExceeded,
    }
}

/// The decision one response forces, given how many responses the turn
/// has already consumed and the round limit: a response without tool
/// calls finishes the turn; one with tool calls consumes a round and
/// either exhausts the limit or sends again.
pub open spec fn decision(rounds_before: nat, limit: nat, has_tools: bool) -> StepKind {
    if !has_tools {
        StepKind::Finished
    } else if rounds_before + 1 >= limit {
        StepKind::ToolLoopExceeded
    } else {
        StepKind::SendAgain
    }
}

/// Whether `m` is the user message that reports results for `calls`:
/// one tool-result block per call, in call order, each pairing the
/// call's id with its result text; the text is exactly the unknown-tool
/// text for a name nobody registered, and for a registered name a text
/// its executor stands behind — an admitted output, or the tool-error
/// rendering of an admitted failure.
pub open spec fn is_tool_results_msg<E: ToolExecutor>(
    m: MsgView,
    calls: Seq<CallView>,
    registry: &ToolRegistry<E>,
) -> bool {
    &&& m.role == Role::User
    &&& match m.content {
        ContentView::Blocks { content: blocks } => {
            &&& blocks.len() == calls.len()
            &&& forall|i: int|
                0 <= i < calls.len() ==> match #[trigger] blocks[i] {
                    BlockView::ToolResult { tool_use_id, content: text } => {
                        &&& tool_use_id == calls[i].id
                        &&& !registry.registered(calls[i].name) ==> text
                            == spec_unknown_tool_text(calls[i].name)
                        &&& registry.registered(calls[i].name) ==> admitted_result_text(
                            registry.lookup(calls[i].name),
                            calls[i].input,
                            text,
                        )
                    },
                    _ => false,
                }
        },
        _ => false,
    }
}

/// One conversation: an append-only history, a round limit, and the
/// count of responses the current turn has consumed.
pub struct Conversation {
    history: Vec<Message>,
    limit: u32,
    rounds_in_turn: u32,
}

impl Conversation {
    /// The history, as a sequence of message images.
    pub closed spec fn spec_history(&self) -> Seq<MsgView> {
        msg_views(self.history@)
    }

    /// The round limit of each turn.
    pub closed spec fn spec_limit(&self) -> nat {
        self.limit as nat
    }

    /// How many responses the current turn has consumed.
    pub closed spec fn spec_rounds(&self) -> nat {
        self.rounds_in_turn as nat
    }

    /// A conversation with no history yet, bounding each turn at `limit`
    /// rounds.
    pub fn new(limit: u32) -> (c: Conversation)
        ensures
            c.spec_history().len() == 0,
            c.spec_limit() == limit as nat,
            c.spec_rounds() == 0,
    {
        Conversation { history: Vec::new(), limit, rounds_in_turn: 0 }
    }

    /// Open a turn: append the user's message and reset the turn's round
    /// count.
    pub fn start_turn(&mut self, user_text: &str)
        ensures
            final(self).spec_history() == old(self).spec_history().push(
                MsgView { role: Role::User, content: ContentView::Text { content: user_text@ } },
            ),
            final(self).spec_limit() == old(self).spec_limit(),
            final(self).spec_rounds() == 0,
    {
        let m = Message::user(user_text);
        self.history.push(m);
        self.rounds_in_turn = 0;
        proof {
            assert(self.spec_history() =~= old(self).spec_history().push(
                MsgView { role: Role::User, content: ContentView::Text { content: user_text@ } },
            ));
        }
    }

    /// Whether the current turn may still consume a response: its round
    /// count is below the limit.
    pub fn turn_open(&self) -> (b: bool)
        ensures
            b == (self.spec_rounds() < self.spec_limit()),
    {
        self.rounds_in_turn < self.limit
    }

    /// The history so far, oldest message first.
    pub fn history(&self) -> (h: &Vec<Message>)
        ensures
            msg_views(h@) == self.spec_history(),
    {
        &self.history
    }

    /// Consume one aggregated response.
    ///
    /// With no tool calls, the response text joins the history as an
    /// assistant message and the turn finishes with that text.  With
    /// tool calls, an assistant message re-stating them and a user
    /// message carrying their results join the history, the turn's
    /// round count grows by one, and the turn either goes on or — at
    /// the round limit — fails with the loop exceeded.
    pub fn on_response<E: ToolExecutor>(
        &mut self,
        response: ChatResponse,
        registry: &ToolRegistry<E>,
    ) -> (step: TurnStep)
        requires
            old(self).spec_rounds() < old(self).spec_limit(),
            registry.wf(),
        ensures
            final(self).spec_limit() == old(self).spec_limit(),
            kind_of(step) == decision(
                old(self).spec_rounds(),
                old(self).spec_limit(),
                response@.tool_calls.len() > 0,
            ),
            response@.tool_calls.len() == 0 ==> {
                &&& step matches TurnStep::Finished { text } && text@ == response@.text
                &&& final(self).spec_rounds() == old(self).spec_rounds()
                &&& final(self).spec_history() == old(self).spec_history().push(
                    MsgView {
                        role: Role::Assistant,
                        content: ContentView::Text { content: response@.text },
                    },
                )
            },
            response@.tool_calls.len() > 0 ==> {
                &&& final(self).spec_rounds() == old(self).spec_rounds() + 1
                &&& final(self).spec_history().len() == old(self).spec_history().len() + 2
                &&& final(self).spec_history().subrange(0, old(self).spec_history().len() as int)
                    == old(self).spec_history()
                &&& final(self).spec_history()[old(self).spec_history().len() as int] == (MsgView {
                    role: Role::Assistant,
                    content: ContentView::Blocks {
                        content: tool_use_blocks(response@.tool_calls),
                    },
                })
                &&& is_tool_results_msg(
                    final(self).spec_history().last(),
                    response@.tool_calls,
                    registry,
                )
            },
    {
        if response.has_tool_calls() {
            let assistant = Message::assistant_tool_use(response.tool_calls.as_slice());
            self.history.push(assistant);
            let results = run_tool_calls(registry, &response.tool_calls);
            let results_msg = Message::tool_results(results);
            self.history.push(results_msg);
            self.rounds_in_turn = self.rounds_in_turn + 1;
            proof {
                assert(self.spec_history().subrange(0, old(self).spec_history().len() as int)
                    =~= old(self).spec_history());
            }
            if self.rounds_in_turn >= self.limit {
                TurnStep::ToolLoopExceeded
            } else {
                TurnStep::SendAgain
            }
        } else {
            let m = Message::assistant(response.text.as_str());
            self.history.push(m);
            proof {
                assert(self.spec_history() =~= old(self).spec_history().push(
                    MsgView {
                        role: Role::Assistant,
                        content: ContentView::Text { content: response@.text },
                    },
                ));
            }
            TurnStep::Finished { text: response.text }
        }
    }
}

/// The outcome of a whole turn, given for each successive response only
/// whether it carries tool calls: how many responses the turn consumes
/// and the kind of decision that ends it, or `None` where the sequence
/// runs out with the turn still open.
pub open spec fn turn_outcome(rounds_before: nat, limit: nat, toolish: Seq<bool>) -> Option<
    (nat, StepKind),
>
    decreases toolish.len(),
{
    if toolish.len() == 0 {
        None
    } else {
        let k = decision(rounds_before, limit, toolish[0]);
        if k == StepKind::SendAgain {
            match turn_outcome(rounds_before + 1, limit, toolish.drop_first()) {
                Some(p) => Some(((p.0 + 1) as nat, p.1)),
                None => None,
            }
        } else {
            Some((1, k))
        }
    }
}

/// Induction step for the loop bound: from any round count below the
/// limit, all-tool responses end the turn with the loop exceeded after
/// exactly the remaining rounds.
pub proof fn lemma_loop_bound(rounds_before: nat, limit: nat, toolish: Seq<bool>)
    requires
        rounds_before < limit,
        toolish.len() >= limit - rounds_before,
        forall|i: int| 0 <= i < toolish.len() ==> toolish[i],
    ensures
        turn_outcome(rounds_before, limit, toolish) == Some(
            (((limit - rounds_before) as nat, StepKind::ToolLoopExceeded)),
        ),
    decreases limit - rounds_before,
{
    if rounds_before + 1 < limit {
        lemma_loop_bound(rounds_before + 1, limit, toolish.drop_first());
    }
}

/// Law: loop-bound enforcement.  If every response up to the configured
/// limit carries tool calls, the turn fails with the loop exceeded
/// after consuming exactly `limit` responses — never fewer, never more.
pub proof fn lemma_round_limit(limit: nat, toolish: Seq<bool>)
    requires
        1 <= limit,
        toolish.len() >= limit,
        forall|i: int| 0 <= i < toolish.len() ==> toolish[i],
    ensures
        turn_outcome(0, limit, toolish) == Some((limit, StepKind::ToolLoopExceeded)),
{
    lemma_loop_bound(0, limit, toolish);
}

} // verus!
