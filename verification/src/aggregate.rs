//! The delta aggregator: folds a finite sequence of streamed response
//! fragments into exactly one completed response, with the same shape a
//! non-streaming call would have produced.

use vstd::prelude::*;

use crate::history::ContextBuilder;
use crate::model::ContentType;
use crate::model::Message;
use crate::model::MessageRole;
use crate::model::MessageView;
use crate::model::OrchestrationError;
use crate::model::OrchestrationErrorView;
use crate::model::PromptResponse;
use crate::model::PromptResponseDelta;
use crate::model::PromptResponseDeltaView;
use crate::model::PromptResponseView;
use crate::model::StopReason;
use crate::model::ToolCall;
use crate::model::ToolCallView;
use crate::resolve::UnresolvedResponse;

verus! {

/// Accumulates streamed fragments into the parts of a completed response.
#[derive(Debug)]
pub struct DeltaAggregator {
    pub content: String,
    pub stop_reason: StopReason,
    pub tool_calls: Option<Vec<ToolCall>>,
    pub token_usage: u32,
}

/// The mathematical value of a `DeltaAggregator`.
#[verifier::ext_equal]
pub struct DeltaAggregatorView {
    pub content: Seq<char>,
    pub stop_reason: StopReason,
    pub tool_calls: Option<Seq<ToolCallView>>,
    pub token_usage: u32,
}

impl View for DeltaAggregator {
    type V = DeltaAggregatorView;

    open spec fn view(&self) -> DeltaAggregatorView {
        DeltaAggregatorView {
            content: self.content@,
            stop_reason: self.stop_reason,
            tool_calls: self.tool_calls.deep_view(),
            token_usage: self.token_usage,
        }
    }
}

/// The aggregator's starting value: empty content, no termination reason
/// reported yet, no tool calls, no token usage reported yet.
pub open spec fn initial_aggregator() -> DeltaAggregatorView {
    DeltaAggregatorView {
        content: Seq::<char>::empty(),
        stop_reason: StopReason::Null,
        tool_calls: None,
        token_usage: 0,
    }
}

/// How one fragment changes the accumulated value: content is appended,
/// reconstructed tool calls are merged preserving arrival order, the last
/// non-absent termination reason wins, and the last nonzero cumulative
/// token count wins.
pub open spec fn observed(a: DeltaAggregatorView, d: PromptResponseDeltaView)
    -> DeltaAggregatorView {
    DeltaAggregatorView {
        content: a.content + d.content,
        stop_reason: match d.stop_reason {
            Some(s) => s,
            None => a.stop_reason,
        },
        tool_calls: match d.tool_calls {
            None => a.tool_calls,
            Some(cs) => match a.tool_calls {
                None => Some(cs),
                Some(acc) => Some(acc + cs),
            },
        },
        token_usage: if d.cumulative_tokens != 0 {
            d.cumulative_tokens
        } else {
            a.token_usage
        },
    }
}

/// The accumulated value after observing every fragment of `ds` in order.
pub open spec fn observed_all(a: DeltaAggregatorView, ds: Seq<PromptResponseDeltaView>)
    -> DeltaAggregatorView
    decreases ds.len(),
{
    if ds.len() == 0 {
        a
    } else {
        observed(observed_all(a, ds.drop_last()), ds.last())
    }
}

/// The concatenation of the fragments' content pieces, in order.
pub open spec fn concatenated_content(ds: Seq<PromptResponseDeltaView>) -> Seq<char>
    decreases ds.len(),
{
    if ds.len() == 0 {
        Seq::<char>::empty()
    } else {
        concatenated_content(ds.drop_last()) + ds.last().content
    }
}

/// The last non-absent termination reason of `ds`, or `Null` if none was
/// ever reported.
pub open spec fn last_stop_reason(ds: Seq<PromptResponseDeltaView>) -> StopReason
    decreases ds.len(),
{
    if ds.len() == 0 {
        StopReason::Null
    } else {
        match ds.last().stop_reason {
            Some(s) => s,
            None => last_stop_reason(ds.drop_last()),
        }
    }
}

/// The last nonzero cumulative token count of `ds`, or 0 if no fragment
/// ever reported one.
pub open spec fn last_reported_tokens(ds: Seq<PromptResponseDeltaView>) -> u32
    decreases ds.len(),
{
    if ds.len() == 0 {
        0
    } else if ds.last().cumulative_tokens != 0 {
        ds.last().cumulative_tokens
    } else {
        last_reported_tokens(ds.drop_last())
    }
}

/// The fragments' tool calls concatenated in arrival order, or `None` if
/// no fragment carried any.
pub open spec fn merged_tool_calls(ds: Seq<PromptResponseDeltaView>) -> Option<Seq<ToolCallView>>
    decreases ds.len(),
{
    if ds.len() == 0 {
        None
    } else {
        match ds.last().tool_calls {
            None => merged_tool_calls(ds.drop_last()),
            Some(cs) => match merged_tool_calls(ds.drop_last()) {
                None => Some(cs),
                Some(acc) => Some(acc + cs),
            },
        }
    }
}

/// The completed response that a fragment sequence aggregates to: a
/// model-role text message holding the concatenated content, the last
/// non-absent termination reason, the last reported token count, and the
/// merged tool calls.
pub open spec fn aggregated_response(ds: Seq<PromptResponseDeltaView>) -> PromptResponseView {
    PromptResponseView {
        message: MessageView {
            role: MessageRole::Model,
            content: concatenated_content(ds),
            content_type: ContentType::Text,
        },
        stop_reason: last_stop_reason(ds),
        token_usage: last_reported_tokens(ds),
        tool_calls: merged_tool_calls(ds),
    }
}

/// Law: aggregation behaves identically whether a backend streams or not.
/// Observing a fragment sequence step by step from the starting value
/// produces exactly the content concatenation, the last non-absent
/// termination reason, the merged tool calls in arrival order, and the
/// last reported token count.
pub proof fn lemma_aggregation_equivalence(ds: Seq<PromptResponseDeltaView>)
    ensures
        observed_all(initial_aggregator(), ds) == (DeltaAggregatorView {
            content: concatenated_content(ds),
            stop_reason: last_stop_reason(ds),
            tool_calls: merged_tool_calls(ds),
            token_usage: last_reported_tokens(ds),
        }),
    decreases ds.len(),
{
    if ds.len() == 0 {
        assert(observed_all(initial_aggregator(), ds) =~= DeltaAggregatorView {
            content: concatenated_content(ds),
            stop_reason: last_stop_reason(ds),
            tool_calls: merged_tool_calls(ds),
            token_usage: last_reported_tokens(ds),
        });
    } else {
        lemma_aggregation_equivalence(ds.drop_last());
    }
}

impl DeltaAggregator {
    /// A fresh aggregator holding the starting value.
    pub fn new() -> (r: Self)
        ensures
            r@ == initial_aggregator(),
    {
        let r = DeltaAggregator {
            content: String::new(),
            stop_reason: StopReason::Null,
            tool_calls: None,
            token_usage: 0,
        };
        proof {
            assert(r@ =~= initial_aggregator());
        }
        r
    }

    /// Folds one successful fragment into the accumulated value.
    pub fn observe(&mut self, delta: &PromptResponseDelta)
        ensures
            final(self)@ == observed(old(self)@, delta@),
    {
        self.content.append(delta.content.as_str());
        if let Some(cs) = &delta.tool_calls {
            let mut copied = cs.clone();
            proof {
                assert forall|i: int| 0 <= i < copied@.len() implies copied@[i]@
                    == cs@[i]@ by {
                    assert(cloned::<ToolCall>(cs@[i], copied@[i]));
                }
                assert(copied.deep_view() =~= cs.deep_view());
            }
            let prev = self.tool_calls.take();
            match prev {
                None => {
                    self.tool_calls = Some(copied);
                },
                Some(mut acc) => {
                    let ghost acc_views = acc.deep_view();
                    acc.append(&mut copied);
                    proof {
                        assert(acc.deep_view() =~= acc_views + cs.deep_view());
                    }
                    self.tool_calls = Some(acc);
                },
            }
        }
        if let Some(s) = delta.stop_reason {
            self.stop_reason = s;
        }
        if delta.cumulative_tokens != 0 {
            self.token_usage = delta.cumulative_tokens;
        }
        proof {
            assert(self@ =~= observed(old(self)@, delta@));
        }
    }

    /// Produces the completed response of the accumulated value: a
    /// model-role text message with the accumulated content, termination
    /// reason, token count and tool calls.
    pub fn into_response(self) -> (r: PromptResponse)
        ensures
            r@ == (PromptResponseView {
                message: MessageView {
                    role: MessageRole::Model,
                    content: self@.content,
                    content_type: ContentType::Text,
                },
                stop_reason: self@.stop_reason,
                token_usage: self@.token_usage,
                tool_calls: self@.tool_calls,
            }),
    {
        let r = PromptResponse {
            message: Message {
                role: MessageRole::Model,
                content: self.content,
                content_type: ContentType::Text,
            },
            stop_reason: self.stop_reason,
            token_usage: self.token_usage,
            tool_calls: self.tool_calls,
        };
        proof {
            assert(r@ =~= PromptResponseView {
                message: MessageView {
                    role: MessageRole::Model,
                    content: self@.content,
                    content_type: ContentType::Text,
                },
                stop_reason: self@.stop_reason,
                token_usage: self@.token_usage,
                tool_calls: self@.tool_calls,
            });
        }
        r
    }
}

impl ContextBuilder {
    /// The computing half of a streamed submission: folds the pulled
    /// fragments into one completed response bundled with this state.
    ///
    /// Fragments are taken in stream order. An error fragment aborts
    /// aggregation with `Stream` carrying that fragment's detail, and no
    /// partial response is returned; otherwise the aggregated response is
    /// exactly what a non-streaming call returning the same parts would
    /// have produced.
    pub fn aggregate_stream(self, fragments: Vec<Result<PromptResponseDelta, String>>) -> (r:
        Result<UnresolvedResponse, OrchestrationError>)
        ensures
            (forall|i: int| 0 <= i < fragments@.len() ==> fragments@[i] is Ok) ==> (r matches Ok(u)
                && u.prompt_response@ == aggregated_response(ok_fragment_views(fragments@))
                && u.context_builder@ == self@),
            (exists|i: int| 0 <= i < fragments@.len() && fragments@[i] is Err) ==> (r matches Err(e)
                && exists|i: int|
                    #![trigger fragments@[i]]
                    0 <= i < fragments@.len() && (fragments@[i] matches Err(d) && e@
                        == OrchestrationErrorView::Stream(d@)) && (forall|j: int|
                        0 <= j < i ==> fragments@[j] is Ok)),
    {
        let mut agg = DeltaAggregator::new();
        let ghost mut seen: Seq<PromptResponseDeltaView> = Seq::empty();
        let mut idx: usize = 0;
        while idx < fragments.len()
            invariant
                0 <= idx <= fragments@.len(),
                forall|j: int| 0 <= j < idx ==> fragments@[j] is Ok,
                seen == ok_fragment_views(fragments@.take(idx as int)),
                agg@ == observed_all(initial_aggregator(), seen),
            decreases fragments@.len() - idx,
        {
            match &fragments[idx] {
                Ok(delta) => {
                    agg.observe(delta);
                    proof {
                        let prev = seen;
                        seen = seen.push(delta@);
                        assert(seen.drop_last() =~= prev);
                        assert(fragments@.take(idx as int + 1).drop_last() =~= fragments@.take(
                            idx as int,
                        ));
                        assert(seen =~= ok_fragment_views(fragments@.take(idx as int + 1)));
                    }
                },
                Err(detail) => {
                    return Err(OrchestrationError::Stream(detail.clone()));
                },
            }
            idx += 1;
        }
        proof {
            assert(fragments@.take(fragments@.len() as int) =~= fragments@);
            lemma_aggregation_equivalence(seen);
        }
        let prompt_response = agg.into_response();
        Ok(UnresolvedResponse { prompt_response, context_builder: self })
    }
}

/// The views of the fragments' deltas, for a sequence of successful
/// fragments (error fragments contribute nothing).
pub open spec fn ok_fragment_views(fs: Seq<Result<PromptResponseDelta, String>>)
    -> Seq<PromptResponseDeltaView>
    decreases fs.len(),
{
    if fs.len() == 0 {
        Seq::<PromptResponseDeltaView>::empty()
    } else {
        match fs.last() {
            Ok(d) => ok_fragment_views(fs.drop_last()).push(d@),
            Err(_) => ok_fragment_views(fs.drop_last()),
        }
    }
}

} // verus!
