//! steelwool: a conversation-orchestration layer between an application and
//! pluggable large-language-model backends.
//!
//! The crate keeps an append-only message history, folds streamed response
//! fragments into one completed response, reconstructs tool calls from
//! partial fragments, and resolves tool-use rounds back into history under a
//! bounded depth and token budget. Backend integrations (the adapters that
//! speak a concrete wire protocol) are external collaborators: they are
//! reached only through plain-value interfaces.

pub mod model;
pub mod history;
pub mod aggregate;
pub mod reconstruct;
pub mod resolve;
pub mod providers;

pub use model::ContentType;
pub use model::Message;
pub use model::MessageRole;
pub use model::MessageView;
pub use model::OrchestrationError;
pub use model::OrchestrationErrorView;
pub use model::Parameter;
pub use model::PartialToolCall;
pub use model::PartialToolCallView;
pub use model::PromptResponse;
pub use model::PromptResponseDelta;
pub use model::PromptResponseDeltaView;
pub use model::PromptResponseView;
pub use model::StopReason;
pub use model::ToolCall;
pub use model::ToolCallView;
pub use model::ToolDescriptor;
pub use model::ToolDescriptorView;
pub use model::ToolResult;
pub use history::ContextBuilder;
pub use aggregate::DeltaAggregator;
pub use reconstruct::PendingToolCall;
pub use reconstruct::PendingToolCallView;
pub use reconstruct::ToolCallReconstructor;
pub use reconstruct::reconstruct_tool_calls;
pub use resolve::ResolutionStep;
pub use resolve::UnresolvedResponse;
pub use resolve::UnresolvedResponseView;
pub use resolve::render_tool_outcomes;
