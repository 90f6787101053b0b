//! The resolution engine: turns a completed backend response into updated
//! conversation history, directly or through bounded rounds of tool
//! execution and re-submission.

use vstd::prelude::*;

use crate::history::ContextBuilder;
use crate::model::ContentType;
use crate::model::Message;
use crate::model::MessageRole;
use crate::model::MessageView;
use crate::model::OrchestrationError;
use crate::model::OrchestrationErrorView;
use crate::model::PromptResponse;
use crate::model::PromptResponseView;
use crate::model::StopReason;
use crate::model::ToolCall;
use crate::model::ToolCallView;

verus! {

/// The state after a backend call returned but before its response has
/// been folded back into history: the completed response together with the
/// conversation state that produced it. Consumed by exactly one resolution
/// method, which always yields a new conversation state.
#[derive(Debug)]
pub struct UnresolvedResponse {
    pub prompt_response: PromptResponse,
    pub context_builder: ContextBuilder,
}

/// The mathematical value of an `UnresolvedResponse`.
#[verifier::ext_equal]
pub struct UnresolvedResponseView {
    pub prompt_response: PromptResponseView,
    pub context_builder: Seq<MessageView>,
}

impl View for UnresolvedResponse {
    type V = UnresolvedResponseView;

    open spec fn view(&self) -> UnresolvedResponseView {
        UnresolvedResponseView {
            prompt_response: self.prompt_response@,
            context_builder: self.context_builder@,
        }
    }
}

/// The history that direct resolution yields: the pre-call history with
/// the response message appended.
pub open spec fn resolved_without(u: UnresolvedResponseView) -> Seq<MessageView> {
    u.context_builder.push(u.prompt_response.message)
}

impl ContextBuilder {
    /// Turns an adapter's raw outcome into an unresolved response.
    ///
    /// On adapter success the completed response is bundled with this
    /// state, unchanged; on adapter failure the submission fails with
    /// `Backend` carrying the adapter's detail, and no response is
    /// synthesized.
    pub fn complete_submission(self, outcome: Result<PromptResponse, String>) -> (r: Result<
        UnresolvedResponse,
        OrchestrationError,
    >)
        ensures
            outcome is Ok ==> (r matches Ok(u) && u.prompt_response@ == outcome->Ok_0@
                && u.context_builder@ == self@),
            outcome is Err ==> (r matches Err(e) && e@ == OrchestrationErrorView::Backend(
                outcome->Err_0@,
            )),
    {
        match outcome {
            Ok(prompt_response) => Ok(
                UnresolvedResponse { prompt_response, context_builder: self },
            ),
            Err(detail) => Err(OrchestrationError::Backend(detail)),
        }
    }
}

impl UnresolvedResponse {
    /// Direct resolution: appends the response message to the pre-call
    /// state, whatever the termination reason, and returns the new state.
    pub fn resolve_without(self) -> (r: ContextBuilder)
        ensures
            r@ == resolved_without(self@),
    {
        self.context_builder.add_message(self.prompt_response.message)
    }

    /// Resolves with a caller-supplied synchronous resolver that consumes
    /// this value and produces the next conversation state.
    pub fn resolve_with_sync<F: FnOnce(Self) -> ContextBuilder>(self, resolver: F) -> (r:
        ContextBuilder)
        requires
            call_requires(resolver, (self,)),
        ensures
            call_ensures(resolver, (self,), r),
    {
        resolver(self)
    }

    /// Applies a caller-supplied synchronous transformation that yields
    /// another unresolved response, passing ownership down the chain.
    pub fn transform_with_sync<F: FnOnce(Self) -> Self>(self, resolver: F) -> (r: Self)
        requires
            call_requires(resolver, (self,)),
        ensures
            call_ensures(resolver, (self,), r),
    {
        resolver(self)
    }
}

/// Law: direct resolution is referentially pure. Equivalent unresolved
/// values resolve to identical resulting states, so resolving twice from
/// the same point yields the same history both times.
pub proof fn lemma_direct_resolution_idempotent(a: UnresolvedResponse, b: UnresolvedResponse)
    requires
        a@ == b@,
    ensures
        resolved_without(a@) == resolved_without(b@),
{
}

/// The view of one tool invocation's outcome.
pub open spec fn outcome_view(o: Result<String, String>) -> Result<Seq<char>, Seq<char>> {
    match o {
        Ok(s) => Ok(s@),
        Err(s) => Err(s@),
    }
}

/// The views of a sequence of tool invocation outcomes.
pub open spec fn outcome_views(os: Seq<Result<String, String>>) -> Seq<
    Result<Seq<char>, Seq<char>>,
> {
    os.map_values(|o: Result<String, String>| outcome_view(o))
}

/// How one tool call's outcome is rendered into the tool-result message:
/// the result text, or an error line naming the call, each followed by a
/// newline.
pub open spec fn rendered_result(c: ToolCallView, o: Result<Seq<char>, Seq<char>>) -> Seq<char> {
    match o {
        Ok(s) => s + "\n"@,
        Err(d) => "Error in tool call "@ + c.id + " of "@ + c.name + ": "@ + d + "\n"@,
    }
}

/// The tool-result message content for a sequence of calls and their
/// outcomes, concatenated in call order.
pub open spec fn rendered_results(cs: Seq<ToolCallView>, os: Seq<Result<Seq<char>, Seq<char>>>)
    -> Seq<char>
    decreases cs.len(),
{
    if cs.len() == 0 || os.len() != cs.len() {
        Seq::<char>::empty()
    } else {
        rendered_results(cs.drop_last(), os.drop_last()) + rendered_result(cs.last(), os.last())
    }
}

/// Whether `outcomes` is a possible sequence of executor results for
/// `calls`, one outcome per call in order.
pub open spec fn renderable_outcomes<E: Fn(&ToolCall) -> Result<String, String>>(
    executor: E,
    calls: Seq<ToolCall>,
    outcomes: Seq<Result<String, String>>,
) -> bool {
    &&& outcomes.len() == calls.len()
    &&& forall|k: int|
        0 <= k < calls.len() ==> call_ensures(executor, (&calls[k],), #[trigger] outcomes[k])
}

/// Invokes the executor once per tool call, in arrival order, and
/// concatenates the rendered outcomes into the tool-result text. A
/// failing tool is rendered as an error line; it never aborts the round.
fn run_tool_calls<E: Fn(&ToolCall) -> Result<String, String>>(calls: &Vec<ToolCall>, executor: &E)
    -> (r: String)
    requires
        forall|c: ToolCall| call_requires(*executor, (&c,)),
    ensures
        exists|outcomes: Seq<Result<String, String>>|
            #![trigger outcome_views(outcomes)]
            renderable_outcomes(*executor, calls@, outcomes) && r@ == rendered_results(
                calls.deep_view(),
                outcome_views(outcomes),
            ),
{
    let mut outcomes: Vec<Result<String, String>> = Vec::new();
    let mut j: usize = 0;
    while j < calls.len()
        invariant
            forall|c: ToolCall| call_requires(*executor, (&c,)),
            0 <= j <= calls@.len(),
            outcomes@.len() == j,
            forall|k: int|
                0 <= k < j ==> call_ensures(*executor, (&calls@[k],), #[trigger] outcomes@[k]),
        decreases calls@.len() - j,
    {
        outcomes.push(executor(&calls[j]));
        j += 1;
    }
    let r = render_tool_outcomes(calls, &outcomes);
    proof {
        assert(renderable_outcomes(*executor, calls@, outcomes@));
    }
    r
}

impl UnresolvedResponse {
    /// One round of tool execution.
    ///
    /// The response message is appended to the state. If the response
    /// requested tool calls and carries some, each is executed in arrival
    /// order and the rendered outcomes are appended as one tool-role
    /// message; otherwise nothing more changes. The response itself is
    /// kept, so further resolution can still inspect it.
    pub fn exec_tool_calls<E: Fn(&ToolCall) -> Result<String, String>>(self, executor: &E) -> (r:
        Self)
        requires
            forall|c: ToolCall| call_requires(*executor, (&c,)),
        ensures
            r.prompt_response@ == self.prompt_response@,
            !(self.prompt_response@.stop_reason == StopReason::ToolCalls
                && self.prompt_response.tool_calls is Some) ==> r.context_builder@
                == resolved_without(self@),
            self.prompt_response@.stop_reason == StopReason::ToolCalls
                && self.prompt_response.tool_calls is Some ==> exists|
                outcomes: Seq<Result<String, String>>,
            |
                #![trigger outcome_views(outcomes)]
                renderable_outcomes(*executor, self.prompt_response.tool_calls->0@, outcomes)
                    && r.context_builder@ == resolved_without(self@).push(
                    MessageView {
                        role: MessageRole::Tool,
                        content: rendered_results(
                            self.prompt_response.tool_calls->0.deep_view(),
                            outcome_views(outcomes),
                        ),
                        content_type: ContentType::Text,
                    },
                ),
    {
        let UnresolvedResponse { prompt_response, context_builder } = self;
        let is_tool_round = match prompt_response.stop_reason {
            StopReason::ToolCalls => prompt_response.tool_calls.is_some(),
            _ => false,
        };
        if !is_tool_round {
            let message = prompt_response.message.clone();
            let context_builder = context_builder.add_message(message);
            return UnresolvedResponse { prompt_response, context_builder };
        }
        let tool_res = match &prompt_response.tool_calls {
            Some(calls) => run_tool_calls(calls, executor),
            None => String::new(),
        };
        let message = prompt_response.message.clone();
        let context_builder = context_builder.add_message(message).add_message(
            Message {
                role: MessageRole::Tool,
                content: tool_res,
                content_type: ContentType::Text,
            },
        );
        UnresolvedResponse { prompt_response, context_builder }
    }

    /// Executes any requested tool calls and returns the updated
    /// conversation state.
    pub fn resolve<E: Fn(&ToolCall) -> Result<String, String>>(self, executor: &E) -> (r:
        ContextBuilder)
        requires
            forall|c: ToolCall| call_requires(*executor, (&c,)),
        ensures
            !(self.prompt_response@.stop_reason == StopReason::ToolCalls
                && self.prompt_response.tool_calls is Some) ==> r@ == resolved_without(self@),
            self.prompt_response@.stop_reason == StopReason::ToolCalls
                && self.prompt_response.tool_calls is Some ==> exists|
                outcomes: Seq<Result<String, String>>,
            |
                #![trigger outcome_views(outcomes)]
                renderable_outcomes(*executor, self.prompt_response.tool_calls->0@, outcomes)
                    && r@ == resolved_without(self@).push(
                    MessageView {
                        role: MessageRole::Tool,
                        content: rendered_results(
                            self.prompt_response.tool_calls->0.deep_view(),
                            outcome_views(outcomes),
                        ),
                        content_type: ContentType::Text,
                    },
                ),
    {
        let resolved = self.exec_tool_calls(executor);
        resolved.context_builder
    }
}

/// One decided step of the resolution loop: either the finished
/// conversation state, or the work of a tool round for the caller to
/// perform before continuing.
#[derive(Debug)]
pub enum ResolutionStep {
    Finished(ContextBuilder),
    ToolRound {
        calls: Vec<ToolCall>,
        message: Message,
        context: ContextBuilder,
        next_depth: usize,
        next_budget: u32,
        resubmit_budget: u32,
    },
}

/// Renders already-gathered tool outcomes, one per call in order, into
/// the tool-result message content; a caller that awaits its executor
/// gathers the outcomes first and renders them here.
pub fn render_tool_outcomes(calls: &Vec<ToolCall>, outcomes: &Vec<Result<String, String>>) -> (r:
    String)
    ensures
        outcomes@.len() == calls@.len() ==> r@ == rendered_results(
            calls.deep_view(),
            outcome_views(outcomes@),
        ),
        outcomes@.len() != calls@.len() ==> r@ == Seq::<char>::empty(),
{
    if calls.len() != outcomes.len() {
        return String::new();
    }
    let mut tool_res = String::new();
    let mut j: usize = 0;
    proof {
        assert(outcome_views(outcomes@.take(0)) =~= Seq::<Result<Seq<char>, Seq<char>>>::empty());
        assert(calls.deep_view().take(0) =~= Seq::<ToolCallView>::empty());
    }
    while j < calls.len()
        invariant
            0 <= j <= calls@.len(),
            calls@.len() == outcomes@.len(),
            tool_res@ == rendered_results(
                calls.deep_view().take(j as int),
                outcome_views(outcomes@.take(j as int)),
            ),
        decreases calls@.len() - j,
    {
        proof {
            assert(outcomes@.take(j as int + 1).drop_last() =~= outcomes@.take(j as int));
            assert(outcome_views(outcomes@.take(j as int + 1)) =~= outcome_views(
                outcomes@.take(j as int),
            ).push(outcome_view(outcomes@[j as int])));
            assert(outcome_views(outcomes@.take(j as int + 1)).drop_last() =~= outcome_views(
                outcomes@.take(j as int),
            ));
            assert(calls.deep_view().take(j as int + 1).drop_last() =~= calls.deep_view().take(
                j as int,
            ));
            assert(calls.deep_view().take(j as int + 1).last() == calls.deep_view()[j as int]);
        }
        match &outcomes[j] {
            Ok(output) => {
                tool_res.append(output.as_str());
                tool_res.append("\n");
            },
            Err(detail) => {
                let mut line = String::from_str("Error in tool call ");
                line.append(calls[j].id.as_str());
                line.append(" of ");
                line.append(calls[j].name.as_str());
                line.append(": ");
                line.append(detail.as_str());
                line.append("\n");
                tool_res.append(line.as_str());
            },
        }
        proof {
            assert(tool_res@ =~= rendered_results(
                calls.deep_view().take(j as int + 1),
                outcome_views(outcomes@.take(j as int + 1)),
            ));
        }
        j += 1;
    }
    proof {
        assert(calls.deep_view().take(calls@.len() as int) =~= calls.deep_view());
        assert(outcomes@.take(outcomes@.len() as int) =~= outcomes@);
    }
    tool_res
}

/// Whether resolution must stop at once, appending the response message
/// and performing no tool execution and no further backend round-trip:
/// the depth or token budget is exhausted, the response did not request
/// tool calls (or carries none), or its own reported usage already
/// consumes the remaining budget.
pub open spec fn immediate_stop(resp: PromptResponseView, depth: int, tokens: int) -> bool {
    ||| depth == 0
    ||| tokens == 0
    ||| !(resp.stop_reason == StopReason::ToolCalls)
    ||| resp.tool_calls is None
    ||| resp.token_usage >= tokens
}

impl UnresolvedResponse {
    /// The tool-use resolution loop, reporting how many backend
    /// round-trips it performed.
    ///
    /// Recursively resolves tool calls and feeds their results back to
    /// the backend, under a bounded depth and token budget: each round
    /// executes the requested tools, appends the model message and the
    /// tool-result message, re-submits the grown state to the adapter,
    /// and continues on the new response with one less round and the
    /// budget lessened by the reported usage. The loop performs at most
    /// `tool_reprompt_depth` round-trips, performs none when it must stop
    /// at once, and only ever appends to the history it was given.
    pub fn resolve_tool_calls_counted<A, E>(
        self,
        adapter: &A,
        executor: &E,
        tool_reprompt_depth: usize,
        max_tokens: u32,
    ) -> (r: Result<(ContextBuilder, usize), OrchestrationError>) where
        A: Fn(&ContextBuilder, u32) -> Result<PromptResponse, String>,
        E: Fn(&ToolCall) -> Result<String, String>,

        requires
            forall|c: ContextBuilder, t: u32| call_requires(*adapter, (&c, t)),
            forall|c: ToolCall| call_requires(*executor, (&c,)),
        ensures
            immediate_stop(self.prompt_response@, tool_reprompt_depth as int, max_tokens as int)
                ==> (r matches Ok(p) && p.0@ == resolved_without(self@) && p.1 == 0),
            r matches Ok(p) ==> p.1 <= tool_reprompt_depth && resolved_without(self@).is_prefix_of(
                p.0@,
            ),
            r matches Ok(p) ==> !immediate_stop(
                self.prompt_response@,
                tool_reprompt_depth as int,
                max_tokens as int,
            ) ==> p.1 >= 1 && exists|outcomes: Seq<Result<String, String>>|
                #![trigger outcome_views(outcomes)]
                renderable_outcomes(*executor, self.prompt_response.tool_calls->0@, outcomes)
                    && resolved_without(self@).push(
                    MessageView {
                        role: MessageRole::Tool,
                        content: rendered_results(
                            self.prompt_response.tool_calls->0.deep_view(),
                            outcome_views(outcomes),
                        ),
                        content_type: ContentType::Text,
                    },
                ).is_prefix_of(p.0@),
            r matches Err(e) ==> e@ is Backend,
        decreases tool_reprompt_depth,
    {
        let ghost self_view = self@;
        match self.resolution_step(tool_reprompt_depth, max_tokens) {
            ResolutionStep::Finished(context) => Ok((context, 0)),
            ResolutionStep::ToolRound {
                calls,
                message,
                context,
                next_depth,
                next_budget,
                resubmit_budget,
            } => {
                let tool_res = run_tool_calls(&calls, executor);
                let new_context = context.add_message(message).add_message(
                    Message {
                        role: MessageRole::Tool,
                        content: tool_res,
                        content_type: ContentType::Text,
                    },
                );
                proof {
                    assert(resolved_without(self_view).is_prefix_of(new_context@));
                }
                match adapter(&new_context, resubmit_budget) {
                    Err(detail) => Err(OrchestrationError::Backend(detail)),
                    Ok(next_response) => {
                        let next = UnresolvedResponse {
                            prompt_response: next_response,
                            context_builder: new_context,
                        };
                        let ghost next_view = next@;
                        match next.resolve_tool_calls_counted(
                            adapter,
                            executor,
                            next_depth,
                            next_budget,
                        ) {
                            Ok((final_context, rounds)) => {
                                proof {
                                    assert(resolved_without(next_view)
                                        == next_view.context_builder.push(
                                        next_view.prompt_response.message,
                                    ));
                                    assert(new_context@.is_prefix_of(resolved_without(next_view)));
                                    assert(new_context@.is_prefix_of(final_context@));
                                    assert(resolved_without(self_view).is_prefix_of(
                                        final_context@,
                                    ));
                                }
                                Ok((final_context, rounds + 1))
                            },
                            Err(e) => Err(e),
                        }
                    },
                }
            },
        }
    }

    /// Decides one step of the resolution loop without performing any
    /// outside work: either the loop is over and the response message is
    /// folded into the state, or a tool round is due and the caller must
    /// execute the returned calls, append the two messages, re-submit
    /// with the resubmission budget, and continue with the lessened depth
    /// and budget.
    pub fn resolution_step(self, tool_reprompt_depth: usize, max_tokens: u32) -> (r:
        ResolutionStep)
        ensures
            immediate_stop(self.prompt_response@, tool_reprompt_depth as int, max_tokens as int)
                ==> (r matches ResolutionStep::Finished(ctx) && ctx@ == resolved_without(self@)),
            !immediate_stop(self.prompt_response@, tool_reprompt_depth as int, max_tokens as int)
                ==> (r matches ResolutionStep::ToolRound {
                calls,
                message,
                context,
                next_depth,
                next_budget,
                resubmit_budget,
            } && calls == self.prompt_response.tool_calls->0 && message@
                == self.prompt_response@.message && context@ == self.context_builder@
                && next_depth == tool_reprompt_depth - 1 && next_budget == max_tokens
                - self.prompt_response.token_usage && resubmit_budget == max_tokens),
    {
        if tool_reprompt_depth == 0 || max_tokens == 0 {
            return ResolutionStep::Finished(self.resolve_without());
        }
        let proceed = match self.prompt_response.stop_reason {
            StopReason::ToolCalls => self.prompt_response.tool_calls.is_some()
                && self.prompt_response.token_usage < max_tokens,
            _ => false,
        };
        if !proceed {
            return ResolutionStep::Finished(self.resolve_without());
        }
        let UnresolvedResponse { prompt_response, context_builder } = self;
        let PromptResponse { message, stop_reason: _, token_usage, tool_calls } = prompt_response;
        let calls = match tool_calls {
            Some(calls) => calls,
            None => Vec::new(),
        };
        ResolutionStep::ToolRound {
            calls,
            message,
            context: context_builder,
            next_depth: tool_reprompt_depth - 1,
            next_budget: max_tokens - token_usage,
            resubmit_budget: max_tokens,
        }
    }

    /// Recursively resolves tool calls in a model response and feeds
    /// results back to the backend, under a bounded reprompt depth and a
    /// token budget; see `resolve_tool_calls_counted` for the exact
    /// round-trip bound this loop obeys.
    pub fn resolve_tool_calls<A, E>(
        self,
        adapter: &A,
        executor: &E,
        tool_reprompt_depth: usize,
        max_tokens: u32,
    ) -> (r: Result<ContextBuilder, OrchestrationError>) where
        A: Fn(&ContextBuilder, u32) -> Result<PromptResponse, String>,
        E: Fn(&ToolCall) -> Result<String, String>,

        requires
            forall|c: ContextBuilder, t: u32| call_requires(*adapter, (&c, t)),
            forall|c: ToolCall| call_requires(*executor, (&c,)),
        ensures
            immediate_stop(self.prompt_response@, tool_reprompt_depth as int, max_tokens as int)
                ==> (r matches Ok(ctx) && ctx@ == resolved_without(self@)),
            r matches Ok(ctx) ==> resolved_without(self@).is_prefix_of(ctx@),
            r matches Ok(ctx) ==> !immediate_stop(
                self.prompt_response@,
                tool_reprompt_depth as int,
                max_tokens as int,
            ) ==> exists|outcomes: Seq<Result<String, String>>|
                #![trigger outcome_views(outcomes)]
                renderable_outcomes(*executor, self.prompt_response.tool_calls->0@, outcomes)
                    && resolved_without(self@).push(
                    MessageView {
                        role: MessageRole::Tool,
                        content: rendered_results(
                            self.prompt_response.tool_calls->0.deep_view(),
                            outcome_views(outcomes),
                        ),
                        content_type: ContentType::Text,
                    },
                ).is_prefix_of(ctx@),
            r matches Err(e) ==> e@ is Backend,
    {
        match self.resolve_tool_calls_counted(adapter, executor, tool_reprompt_depth, max_tokens) {
            Ok((ctx, _)) => Ok(ctx),
            Err(e) => Err(e),
        }
    }
}

} // verus!
