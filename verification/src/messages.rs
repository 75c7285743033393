//! The conversation data model: messages, content blocks, tool
//! definitions, finalized tool calls, and the structured response of one
//! round.
//!
//! A message's content keeps one shape for its whole lifetime: plain
//! text, or an ordered sequence of content blocks.  Tool-use and
//! tool-result blocks pair by id value, never by position.

use crate::json::clone_json;
use vstd::prelude::*;

verus! {

/// Who speaks a message.
#[derive(Clone, Copy, PartialEq, Eq, Structural, Debug)]
pub enum Role {
    User,
    Assistant,
}

/// A tool the remote model may ask for, as advertised to it.
pub struct Tool {
    pub name: String,
    pub description: String,
    pub input_schema: serde_json::Value,
}

/// Mathematical image of a `Tool`.
pub struct ToolView {
    pub name: Seq<char>,
    pub description: Seq<char>,
    pub input_schema: serde_json::Value,
}

impl View for Tool {
    type V = ToolView;

    open spec fn view(&self) -> ToolView {
        ToolView { name: self.name@, description: self.description@, input_schema: self.input_schema }
    }
}

impl Tool {
    /// Build a tool definition.
    pub fn new(name: &str, description: &str, input_schema: serde_json::Value) -> (t: Tool)
        ensures
            t@ == (ToolView { name: name@, description: description@, input_schema }),
    {
        Tool { name: String::from_str(name), description: String::from_str(description), input_schema }
    }
}

/// A finalized, immutable tool invocation decoded from one streamed
/// tool-use block.
pub struct ToolCall {
    pub id: String,
    pub name: String,
    pub input: serde_json::Value,
}

/// Mathematical image of a `ToolCall`.
pub struct CallView {
    pub id: Seq<char>,
    pub name: Seq<char>,
    pub input: serde_json::Value,
}

impl View for ToolCall {
    type V = CallView;

    open spec fn view(&self) -> CallView {
        CallView { id: self.id@, name: self.name@, input: self.input }
    }
}

impl Clone for ToolCall {
    /// The clone carries the same id, name and input.
    fn clone(&self) -> (r: Self)
        ensures
            r@ == self@,
    {
        ToolCall { id: self.id.clone(), name: self.name.clone(), input: clone_json(&self.input) }
    }
}

/// The images of a sequence of tool calls.
pub open spec fn call_views(s: Seq<ToolCall>) -> Seq<CallView> {
    s.map_values(|c: ToolCall| c@)
}

/// One block of structured message content.
pub enum ContentBlock {
    Text { text: String },
    ToolUse { id: String, name: String, input: serde_json::Value },
    ToolResult { tool_use_id: String, content: String },
}

/// Mathematical image of a `ContentBlock`.
pub enum BlockView {
    Text { text: Seq<char> },
    ToolUse { id: Seq<char>, name: Seq<char>, input: serde_json::Value },
    ToolResult { tool_use_id: Seq<char>, content: Seq<char> },
}

impl View for ContentBlock {
    type V = BlockView;

    open spec fn view(&self) -> BlockView {
        match self {
            ContentBlock::Text { text } => BlockView::Text { text: text@ },
            ContentBlock::ToolUse { id, name, input } => BlockView::ToolUse {
                id: id@,
                name: name@,
                input: *input,
            },
            ContentBlock::ToolResult { tool_use_id, content } => BlockView::ToolResult {
                tool_use_id: tool_use_id@,
                content: content@,
            },
        }
    }
}

/// The images of a sequence of content blocks.
pub open spec fn block_views(s: Seq<ContentBlock>) -> Seq<BlockView> {
    s.map_values(|b: ContentBlock| b@)
}

/// Message content: plain text, or an ordered sequence of blocks.
#[allow(inconsistent_fields)]
pub enum MessageContent {
    Text { content: String },
    Blocks { content: Vec<ContentBlock> },
}

/// Mathematical image of `MessageContent`.
#[allow(inconsistent_fields)]
pub enum ContentView {
    Text { content: Seq<char> },
    Blocks { content: Seq<BlockView> },
}

impl View for MessageContent {
    type V = ContentView;

    open spec fn view(&self) -> ContentView {
        match self {
            MessageContent::Text { content } => ContentView::Text { content: content@ },
            MessageContent::Blocks { content } => ContentView::Blocks {
                content: block_views(content@),
            },
        }
    }
}

/// One message of the conversation.
pub struct Message {
    pub role: Role,
    pub content: MessageContent,
}

/// Mathematical image of a `Message`.
pub struct MsgView {
    pub role: Role,
    pub content: ContentView,
}

impl View for Message {
    type V = MsgView;

    open spec fn view(&self) -> MsgView {
        MsgView { role: self.role, content: self.content@ }
    }
}

/// The images of a sequence of messages.
pub open spec fn msg_views(s: Seq<Message>) -> Seq<MsgView> {
    s.map_values(|m: Message| m@)
}

/// The tool-use blocks that mirror a sequence of tool calls, in order.
pub open spec fn tool_use_blocks(calls: Seq<CallView>) -> Seq<BlockView> {
    calls.map_values(
        |c: CallView| BlockView::ToolUse { id: c.id, name: c.name, input: c.input },
    )
}

/// The tool-result blocks for a sequence of `(tool_use_id, content)`
/// pairs, in order.
pub open spec fn tool_result_blocks(results: Seq<(Seq<char>, Seq<char>)>) -> Seq<BlockView> {
    results.map_values(
        |p: (Seq<char>, Seq<char>)| BlockView::ToolResult { tool_use_id: p.0, content: p.1 },
    )
}

/// The images of a sequence of `(String, String)` pairs.
pub open spec fn pair_views(s: Seq<(String, String)>) -> Seq<(Seq<char>, Seq<char>)> {
    s.map_values(|p: (String, String)| (p.0@, p.1@))
}

impl Message {
    /// A plain user text message.
    pub fn user(text: &str) -> (m: Message)
        ensures
            m@ == (MsgView { role: Role::User, content: ContentView::Text { content: text@ } }),
    {
        Message {
            role: Role::User,
            content: MessageContent::Text { content: String::from_str(text) },
        }
    }

    /// A plain assistant text message.
    pub fn assistant(text: &str) -> (m: Message)
        ensures
            m@ == (MsgView {
                role: Role::Assistant,
                content: ContentView::Text { content: text@ },
            }),
    {
        Message {
            role: Role::Assistant,
            content: MessageContent::Text { content: String::from_str(text) },
        }
    }

    /// The assistant message that re-states a round's tool calls as
    /// tool-use blocks, in the order the calls arrived.
    pub fn assistant_tool_use(tool_calls: &[ToolCall]) -> (m: Message)
        ensures
            m@ == (MsgView {
                role: Role::Assistant,
                content: ContentView::Blocks {
                    content: tool_use_blocks(call_views(tool_calls@)),
                },
            }),
    {
        let mut blocks: Vec<ContentBlock> = Vec::new();
        let mut i: usize = 0;
        while i < tool_calls.len()
            invariant
                i <= tool_calls@.len(),
                blocks@.len() == i,
                forall|j: int|
                    0 <= j < i ==> blocks@[j]@ == tool_use_blocks(call_views(tool_calls@))[j],
            decreases tool_calls@.len() - i,
        {
            let tc = &tool_calls[i];
            blocks.push(
                ContentBlock::ToolUse {
                    id: tc.id.clone(),
                    name: tc.name.clone(),
                    input: clone_json(&tc.input),
                },
            );
            i = i + 1;
        }
        proof {
            assert(block_views(blocks@) =~= tool_use_blocks(call_views(tool_calls@)));
        }
        Message { role: Role::Assistant, content: MessageContent::Blocks { content: blocks } }
    }

    /// The user message that reports tool results, one tool-result block
    /// per `(tool_use_id, content)` pair, in order.
    pub fn tool_results(results: Vec<(String, String)>) -> (m: Message)
        ensures
            m@ == (MsgView {
                role: Role::User,
                content: ContentView::Blocks {
                    content: tool_result_blocks(pair_views(results@)),
                },
            }),
    {
        let mut blocks: Vec<ContentBlock> = Vec::new();
        let mut i: usize = 0;
        while i < results.len()
            invariant
                i <= results@.len(),
                blocks@.len() == i,
                forall|j: int|
                    0 <= j < i ==> blocks@[j]@ == tool_result_blocks(pair_views(results@))[j],
            decreases results@.len() - i,
        {
            let pair = &results[i];
            blocks.push(
                ContentBlock::ToolResult {
                    tool_use_id: pair.0.clone(),
                    content: pair.1.clone(),
                },
            );
            i = i + 1;
        }
        proof {
            assert(block_views(blocks@) =~= tool_result_blocks(pair_views(results@)));
        }
        Message { role: Role::User, content: MessageContent::Blocks { content: blocks } }
    }
}

/// The structured outcome of one fully aggregated round.
pub struct ChatResponse {
    pub text: String,
    pub stop_reason: String,
    pub tool_calls: Vec<ToolCall>,
}

/// Mathematical image of a `ChatResponse`.
pub struct RespView {
    pub text: Seq<char>,
    pub stop_reason: Seq<char>,
    pub tool_calls: Seq<CallView>,
}

impl View for ChatResponse {
    type V = RespView;

    open spec fn view(&self) -> RespView {
        RespView {
            text: self.text@,
            stop_reason: self.stop_reason@,
            tool_calls: call_views(self.tool_calls@),
        }
    }
}

impl ChatResponse {
    /// Whether the model asked for any tools this round.
    pub fn has_tool_calls(&self) -> (r: bool)
        ensures
            r == (self@.tool_calls.len() > 0),
    {
        self.tool_calls.len() > 0
    }
}

} // verus!
