//! The data model: messages, completed responses, streamed response
//! fragments, tool calls and the error kinds of the orchestration layer.

use vstd::prelude::*;

verus! {

/// Who authored a message in the conversation history.
#[derive(Clone, Copy, Debug, PartialEq, Eq, Structural)]
pub enum MessageRole {
    User,
    Model,
    Function,
    System,
    Tool,
}

/// The kind of content a message carries.
#[derive(Clone, Copy, Debug, PartialEq, Eq, Structural)]
pub enum ContentType {
    Text,
}

/// The backend-reported cause for ending a single generation turn.
/// `Null` stands for a backend that never reported one.
#[derive(Clone, Copy, Debug, PartialEq, Eq, Structural)]
pub enum StopReason {
    Stop,
    Length,
    ContentFilter,
    ToolCalls,
    Null,
}

/// Atomic message type with a specific role, content, and content type.
/// Immutable once created; owned by the history that holds it.
#[derive(Debug)]
pub struct Message {
    pub role: MessageRole,
    pub content: String,
    pub content_type: ContentType,
}

/// The mathematical value of a `Message`.
#[verifier::ext_equal]
pub struct MessageView {
    pub role: MessageRole,
    pub content: Seq<char>,
    pub content_type: ContentType,
}

impl View for Message {
    type V = MessageView;

    open spec fn view(&self) -> MessageView {
        MessageView { role: self.role, content: self.content@, content_type: self.content_type }
    }
}

impl DeepView for Message {
    type V = MessageView;

    open spec fn deep_view(&self) -> MessageView {
        self.view()
    }
}

impl Clone for Message {
    fn clone(&self) -> (r: Self)
        ensures
            r@ == self@,
    {
        Message {
            role: self.role,
            content: self.content.clone(),
            content_type: self.content_type,
        }
    }
}

/// A parsed tool call: a structured request from the model to invoke an
/// externally defined capability. `arguments` holds the raw argument text;
/// reconstruction guarantees it is either empty or well-formed JSON.
#[derive(Debug)]
pub struct ToolCall {
    pub id: String,
    pub name: String,
    pub arguments: String,
}

/// The mathematical value of a `ToolCall`.
#[verifier::ext_equal]
pub struct ToolCallView {
    pub id: Seq<char>,
    pub name: Seq<char>,
    pub arguments: Seq<char>,
}

impl View for ToolCall {
    type V = ToolCallView;

    open spec fn view(&self) -> ToolCallView {
        ToolCallView { id: self.id@, name: self.name@, arguments: self.arguments@ }
    }
}

impl DeepView for ToolCall {
    type V = ToolCallView;

    open spec fn deep_view(&self) -> ToolCallView {
        self.view()
    }
}

impl Clone for ToolCall {
    fn clone(&self) -> (r: Self)
        ensures
            r@ == self@,
    {
        ToolCall {
            id: self.id.clone(),
            name: self.name.clone(),
            arguments: self.arguments.clone(),
        }
    }
}

/// Describes a tool available to a model. The schema is carried as JSON
/// text and passed through to the adapter, never interpreted here.
#[derive(Debug)]
pub struct ToolDescriptor {
    pub name: String,
    pub description: String,
    pub schema: String,
    pub required: bool,
}

/// The mathematical value of a `ToolDescriptor`.
#[verifier::ext_equal]
pub struct ToolDescriptorView {
    pub name: Seq<char>,
    pub description: Seq<char>,
    pub schema: Seq<char>,
    pub required: bool,
}

impl View for ToolDescriptor {
    type V = ToolDescriptorView;

    open spec fn view(&self) -> ToolDescriptorView {
        ToolDescriptorView {
            name: self.name@,
            description: self.description@,
            schema: self.schema@,
            required: self.required,
        }
    }
}

impl DeepView for ToolDescriptor {
    type V = ToolDescriptorView;

    open spec fn deep_view(&self) -> ToolDescriptorView {
        self.view()
    }
}

impl Clone for ToolDescriptor {
    fn clone(&self) -> (r: Self)
        ensures
            r@ == self@,
    {
        ToolDescriptor {
            name: self.name.clone(),
            description: self.description.clone(),
            schema: self.schema.clone(),
            required: self.required,
        }
    }
}

/// The outcome of one tool invocation, as an application may record it.
#[derive(Debug)]
pub struct ToolResult {
    pub tool_call_id: String,
    pub result: String,
    pub error: bool,
}

/// A parameter description for a tool, kept as plain data.
#[derive(Debug)]
pub struct Parameter {
    pub return_type: String,
}

/// Prompt response content: produced once per backend call.
#[derive(Debug)]
pub struct PromptResponse {
    pub message: Message,
    pub stop_reason: StopReason,
    pub token_usage: u32,
    pub tool_calls: Option<Vec<ToolCall>>,
}

/// The mathematical value of a `PromptResponse`.
#[verifier::ext_equal]
pub struct PromptResponseView {
    pub message: MessageView,
    pub stop_reason: StopReason,
    pub token_usage: u32,
    pub tool_calls: Option<Seq<ToolCallView>>,
}

impl View for PromptResponse {
    type V = PromptResponseView;

    open spec fn view(&self) -> PromptResponseView {
        PromptResponseView {
            message: self.message@,
            stop_reason: self.stop_reason,
            token_usage: self.token_usage,
            tool_calls: self.tool_calls.deep_view(),
        }
    }
}

impl Clone for PromptResponse {
    fn clone(&self) -> (r: Self)
        ensures
            r@ == self@,
    {
        let tool_calls = clone_tool_calls(&self.tool_calls);
        let r = PromptResponse {
            message: self.message.clone(),
            stop_reason: self.stop_reason,
            token_usage: self.token_usage,
            tool_calls,
        };
        proof {
            assert(r@ =~= self@);
        }
        r
    }
}

/// Copies an optional tool-call list, keeping its value.
fn clone_tool_calls(tool_calls: &Option<Vec<ToolCall>>) -> (r: Option<Vec<ToolCall>>)
    ensures
        r.deep_view() == tool_calls.deep_view(),
{
    match tool_calls {
        None => None,
        Some(v) => {
            let copied = v.clone();
            proof {
                assert forall|i: int| 0 <= i < copied@.len() implies copied@[i]@
                    == v@[i]@ by {
                    assert(cloned::<ToolCall>(v@[i], copied@[i]));
                }
                assert(copied.deep_view() =~= v.deep_view());
            }
            Some(copied)
        },
    }
}

/// One incremental piece of a streamed model response. Zero or more
/// fragments precede exactly one terminal fragment per streamed call.
#[derive(Debug)]
pub struct PromptResponseDelta {
    pub content: String,
    pub stop_reason: Option<StopReason>,
    pub tool_calls: Option<Vec<ToolCall>>,
    pub cumulative_tokens: u32,
}

/// The mathematical value of a `PromptResponseDelta`.
#[verifier::ext_equal]
pub struct PromptResponseDeltaView {
    pub content: Seq<char>,
    pub stop_reason: Option<StopReason>,
    pub tool_calls: Option<Seq<ToolCallView>>,
    pub cumulative_tokens: u32,
}

impl View for PromptResponseDelta {
    type V = PromptResponseDeltaView;

    open spec fn view(&self) -> PromptResponseDeltaView {
        PromptResponseDeltaView {
            content: self.content@,
            stop_reason: self.stop_reason,
            tool_calls: self.tool_calls.deep_view(),
            cumulative_tokens: self.cumulative_tokens,
        }
    }
}

impl DeepView for PromptResponseDelta {
    type V = PromptResponseDeltaView;

    open spec fn deep_view(&self) -> PromptResponseDeltaView {
        self.view()
    }
}

impl Clone for PromptResponseDelta {
    fn clone(&self) -> (r: Self)
        ensures
            r@ == self@,
    {
        let tool_calls = clone_tool_calls(&self.tool_calls);
        let r = PromptResponseDelta {
            content: self.content.clone(),
            stop_reason: self.stop_reason,
            tool_calls,
            cumulative_tokens: self.cumulative_tokens,
        };
        proof {
            assert(r@ =~= self@);
        }
        r
    }
}

/// A partially specified tool call as one streamed fragment carries it:
/// any of identity and argument text may be absent.
#[derive(Debug)]
pub struct PartialToolCall {
    pub id: Option<String>,
    pub name: Option<String>,
    pub arguments_fragment: Option<String>,
}

/// The mathematical value of a `PartialToolCall`.
#[verifier::ext_equal]
pub struct PartialToolCallView {
    pub id: Option<Seq<char>>,
    pub name: Option<Seq<char>>,
    pub arguments_fragment: Option<Seq<char>>,
}

impl View for PartialToolCall {
    type V = PartialToolCallView;

    open spec fn view(&self) -> PartialToolCallView {
        PartialToolCallView {
            id: self.id.deep_view(),
            name: self.name.deep_view(),
            arguments_fragment: self.arguments_fragment.deep_view(),
        }
    }
}

impl DeepView for PartialToolCall {
    type V = PartialToolCallView;

    open spec fn deep_view(&self) -> PartialToolCallView {
        self.view()
    }
}

/// The error kinds of the orchestration layer.
///
/// - `Backend`: an adapter call failed outright; conversation state is
///   unchanged.
/// - `Stream`: a fragment in a stream carried an error; aggregation aborts
///   and no completed response is synthesized.
/// - `InvalidToolArguments`: accumulated tool-call argument text did not
///   parse as JSON; reported with the call's id and the raw text.
///
/// Tool execution failures are not an error kind: they are rendered into
/// history so that one failing tool does not abort the conversation.
#[derive(Debug)]
pub enum OrchestrationError {
    Backend(String),
    Stream(String),
    InvalidToolArguments { id: String, raw: String },
}

/// The mathematical value of an `OrchestrationError`.
#[verifier::ext_equal]
pub enum OrchestrationErrorView {
    Backend(Seq<char>),
    Stream(Seq<char>),
    InvalidToolArguments { id: Seq<char>, raw: Seq<char> },
}

impl View for OrchestrationError {
    type V = OrchestrationErrorView;

    open spec fn view(&self) -> OrchestrationErrorView {
        match self {
            OrchestrationError::Backend(d) => OrchestrationErrorView::Backend(d@),
            OrchestrationError::Stream(d) => OrchestrationErrorView::Stream(d@),
            OrchestrationError::InvalidToolArguments { id, raw } =>
                OrchestrationErrorView::InvalidToolArguments { id: id@, raw: raw@ },
        }
    }
}

} // verus!
