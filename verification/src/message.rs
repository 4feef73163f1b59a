//! The message history: an ordered sequence of user and assistant turns.
//!
//! The engine reads the text and the tool calls of an assistant turn and
//! writes tool results; content of any other kind is carried along unread.

use vstd::prelude::*;
use vstd::string::*;

verus! {

/// One piece of the content of a tool result.
#[derive(Clone, Debug, PartialEq, Eq)]
pub enum ToolResultContent {
    Text { text: String },
    /// Content the engine carries and never reads, as the host encoded it.
    Opaque { payload: String },
}

pub enum ToolResultContentView {
    Text { text: Seq<char> },
    Opaque { payload: Seq<char> },
}

impl View for ToolResultContent {
    type V = ToolResultContentView;

    open spec fn view(&self) -> ToolResultContentView {
        match self {
            ToolResultContent::Text { text } => ToolResultContentView::Text { text: text@ },
            ToolResultContent::Opaque { payload } => ToolResultContentView::Opaque {
                payload: payload@,
            },
        }
    }
}

/// One piece of the content of a user turn.
#[derive(Clone, Debug, PartialEq, Eq)]
pub enum UserContent {
    Text { text: String },
    ToolResult { id: String, call_id: Option<String>, content: Vec<ToolResultContent> },
    /// Content the engine carries and never reads, as the host encoded it.
    Opaque { payload: String },
}

pub enum UserContentView {
    Text { text: Seq<char> },
    ToolResult { id: Seq<char>, call_id: Option<Seq<char>>, content: Seq<ToolResultContentView> },
    Opaque { payload: Seq<char> },
}

/// The view of an optional string.
pub open spec fn opt_view(s: Option<String>) -> Option<Seq<char>> {
    match s {
        Some(t) => Some(t@),
        None => None,
    }
}

impl View for UserContent {
    type V = UserContentView;

    open spec fn view(&self) -> UserContentView {
        match self {
            UserContent::Text { text } => UserContentView::Text { text: text@ },
            UserContent::ToolResult { id, call_id, content } => UserContentView::ToolResult {
                id: id@,
                call_id: opt_view(*call_id),
                content: content@.map_values(|c: ToolResultContent| c@),
            },
            UserContent::Opaque { payload } => UserContentView::Opaque { payload: payload@ },
        }
    }
}

/// A request of the model to invoke a tool.
#[derive(Clone, Debug, PartialEq, Eq)]
pub struct ToolCall {
    pub id: String,
    pub call_id: Option<String>,
    /// Name of the tool to invoke.
    pub name: String,
    /// Argument payload, as text.
    pub arguments: String,
}

pub struct ToolCallView {
    pub id: Seq<char>,
    pub call_id: Option<Seq<char>>,
    pub name: Seq<char>,
    pub arguments: Seq<char>,
}

impl View for ToolCall {
    type V = ToolCallView;

    open spec fn view(&self) -> ToolCallView {
        ToolCallView {
            id: self.id@,
            call_id: opt_view(self.call_id),
            name: self.name@,
            arguments: self.arguments@,
        }
    }
}

/// One piece of the content of an assistant turn.
#[derive(Clone, Debug, PartialEq, Eq)]
pub enum AssistantContent {
    Text { text: String },
    ToolCall { call: ToolCall },
    /// Content the engine carries and never reads, as the host encoded it.
    Opaque { payload: String },
}

pub enum AssistantContentView {
    Text { text: Seq<char> },
    ToolCall { call: ToolCallView },
    Opaque { payload: Seq<char> },
}

impl View for AssistantContent {
    type V = AssistantContentView;

    open spec fn view(&self) -> AssistantContentView {
        match self {
            AssistantContent::Text { text } => AssistantContentView::Text { text: text@ },
            AssistantContent::ToolCall { call } => AssistantContentView::ToolCall { call: call@ },
            AssistantContent::Opaque { payload } => AssistantContentView::Opaque {
                payload: payload@,
            },
        }
    }
}

/// One turn of the history.
#[derive(Clone, Debug, PartialEq, Eq)]
pub enum Message {
    User { content: Vec<UserContent> },
    Assistant { id: Option<String>, content: Vec<AssistantContent> },
}

pub enum MessageView {
    User { content: Seq<UserContentView> },
    Assistant { id: Option<Seq<char>>, content: Seq<AssistantContentView> },
}

/// The views of the items of an assistant turn, in order.
pub open spec fn choice_view(choice: Seq<AssistantContent>) -> Seq<AssistantContentView> {
    choice.map_values(|c: AssistantContent| c@)
}

impl View for Message {
    type V = MessageView;

    open spec fn view(&self) -> MessageView {
        match self {
            Message::User { content } => MessageView::User {
                content: content@.map_values(|c: UserContent| c@),
            },
            Message::Assistant { id, content } => MessageView::Assistant {
                id: opt_view(*id),
                content: choice_view(content@),
            },
        }
    }
}

/// The views of the turns of a history, in order.
pub open spec fn history_view(messages: Seq<Message>) -> Seq<MessageView> {
    messages.map_values(|m: Message| m@)
}

/// The user turn that holds `text` and nothing else.
pub open spec fn user_text_turn(text: Seq<char>) -> MessageView {
    MessageView::User { content: seq![UserContentView::Text { text }] }
}

/// The assistant turn, without an id, that holds `choice`.
pub open spec fn assistant_turn(choice: Seq<AssistantContentView>) -> MessageView {
    MessageView::Assistant { id: None, content: choice }
}

/// The user turn that reports `output` as the result of `call`, under the
/// call's id and, where the model gave one, its call-id.
pub open spec fn tool_result_turn(call: ToolCallView, output: Seq<char>) -> MessageView {
    MessageView::User {
        content: seq![
            UserContentView::ToolResult {
                id: call.id,
                call_id: call.call_id,
                content: seq![ToolResultContentView::Text { text: output }],
            },
        ],
    }
}

/// A copy of an optional string.
pub fn clone_opt_string(s: &Option<String>) -> (copy: Option<String>)
    ensures
        opt_view(copy) == opt_view(*s),
{
    match s {
        Some(t) => Some(t.clone()),
        None => None,
    }
}

impl Message {
    /// A user turn made of one text.
    pub fn user(text: String) -> (turn: Message)
        ensures
            turn@ == user_text_turn(text@),
    {
        let mut content: Vec<UserContent> = Vec::new();
        content.push(UserContent::Text { text });
        let turn = Message::User { content };
        proof {
            assert(turn@->User_content =~= seq![UserContentView::Text { text: text@ }]);
        }
        turn
    }

    /// An assistant turn, without an id, made of the items of one completion.
    pub fn assistant(choice: Vec<AssistantContent>) -> (turn: Message)
        ensures
            turn@ == assistant_turn(choice_view(choice@)),
    {
        Message::Assistant { id: None, content: choice }
    }

    /// The user turn that answers `call` with `output`.
    pub fn tool_result(call: &ToolCall, output: String) -> (turn: Message)
        ensures
            turn@ == tool_result_turn(call@, output@),
    {
        let mut parts: Vec<ToolResultContent> = Vec::new();
        parts.push(ToolResultContent::Text { text: output });
        let item = UserContent::ToolResult {
            id: call.id.clone(),
            call_id: clone_opt_string(&call.call_id),
            content: parts,
        };
        proof {
            assert(parts@.map_values(|c: ToolResultContent| c@) =~= seq![
                ToolResultContentView::Text { text: output@ },
            ]);
        }
        let mut content: Vec<UserContent> = Vec::new();
        content.push(item);
        let turn = Message::User { content };
        proof {
            assert(turn@->User_content =~= seq![item@]);
        }
        turn
    }
}

} // verus!
