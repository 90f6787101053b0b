//! The tool-call reconstructor: stitches fragmentary tool-call argument
//! text, arriving over many streamed fragments, into well-formed,
//! individually addressable tool-call records. A stream may carry several
//! tool calls back to back; the appearance of a new name in a later
//! fragment is the only delimiter between them.

use vstd::prelude::*;

use crate::model::OrchestrationError;
use crate::model::OrchestrationErrorView;
use crate::model::PartialToolCall;
use crate::model::PartialToolCallView;
use crate::model::ToolCall;
use crate::model::ToolCallView;

verus! {

/// Whether serde_json accepts a text as one well-formed JSON value.
pub uninterp spec fn json_wellformed(s: Seq<char>) -> bool;

/// Relies on serde_json::from_str::<serde_json::Value>: parsing succeeds
/// exactly when the text is well-formed JSON, and the outcome depends on
/// the text alone.
#[verifier::external_body]
fn is_wellformed_json(s: &str) -> (r: bool)
    ensures
        r == json_wellformed(s@),
{
    serde_json::from_str::<serde_json::Value>(s).is_ok()
}

/// A tool call in progress: identity established, argument text still
/// accumulating.
#[derive(Debug)]
pub struct PendingToolCall {
    pub id: String,
    pub name: String,
    pub arguments: String,
}

/// The mathematical value of a `PendingToolCall`.
#[verifier::ext_equal]
pub struct PendingToolCallView {
    pub id: Seq<char>,
    pub name: Seq<char>,
    pub arguments: Seq<char>,
}

impl View for PendingToolCall {
    type V = PendingToolCallView;

    open spec fn view(&self) -> PendingToolCallView {
        PendingToolCallView { id: self.id@, name: self.name@, arguments: self.arguments@ }
    }
}

/// The text of an optional piece, absent meaning empty.
pub open spec fn or_empty(s: Option<Seq<char>>) -> Seq<char> {
    match s {
        Some(t) => t,
        None => Seq::<char>::empty(),
    }
}

/// The call in progress that a piece starts: its identity and argument
/// text are taken from the piece, absent parts as empty.
pub open spec fn started(p: PartialToolCallView) -> PendingToolCallView {
    PendingToolCallView {
        id: or_empty(p.id),
        name: or_empty(p.name),
        arguments: or_empty(p.arguments_fragment),
    }
}

/// A piece's argument text appended to the call in progress.
pub open spec fn appended_fragment(b: PendingToolCallView, p: PartialToolCallView)
    -> PendingToolCallView {
    PendingToolCallView {
        id: b.id,
        name: b.name,
        arguments: b.arguments + or_empty(p.arguments_fragment),
    }
}

/// Whether a call in progress finalizes successfully: zero accumulated
/// argument text resolves to an empty arguments value, anything else must
/// be well-formed JSON.
pub open spec fn completes(b: PendingToolCallView) -> bool {
    b.arguments.len() == 0 || json_wellformed(b.arguments)
}

/// The finished record of a successfully finalized call in progress.
pub open spec fn completed_call(b: PendingToolCallView) -> ToolCallView {
    ToolCallView { id: b.id, name: b.name, arguments: b.arguments }
}

/// Builds the call in progress that `piece` starts.
fn start_pending(piece: &PartialToolCall) -> (r: PendingToolCall)
    ensures
        r@ == started(piece@),
{
    let id = match &piece.id {
        Some(s) => s.clone(),
        None => String::new(),
    };
    let name = match &piece.name {
        Some(s) => s.clone(),
        None => String::new(),
    };
    let arguments = match &piece.arguments_fragment {
        Some(s) => s.clone(),
        None => String::new(),
    };
    let r = PendingToolCall { id, name, arguments };
    proof {
        assert(r@ =~= started(piece@));
    }
    r
}

/// Finalizes a call in progress: validates the accumulated argument text
/// and either emits the finished record or fails with the call's id and
/// the raw text.
fn flush_pending(p: PendingToolCall) -> (r: Result<ToolCall, OrchestrationError>)
    ensures
        completes(p@) ==> (r matches Ok(c) && c@ == completed_call(p@)),
        !completes(p@) ==> (r matches Err(e) && e@ == (OrchestrationErrorView::InvalidToolArguments {
            id: p@.id,
            raw: p@.arguments,
        })),
{
    if p.arguments.as_str().is_empty() || is_wellformed_json(p.arguments.as_str()) {
        Ok(ToolCall { id: p.id, name: p.name, arguments: p.arguments })
    } else {
        Err(OrchestrationError::InvalidToolArguments { id: p.id, raw: p.arguments })
    }
}

/// Reconstructs complete tool calls from a stream of partial pieces, kept
/// across fragments.
#[derive(Debug)]
pub struct ToolCallReconstructor {
    pub pending: Option<PendingToolCall>,
}

impl View for ToolCallReconstructor {
    type V = Option<PendingToolCallView>;

    open spec fn view(&self) -> Option<PendingToolCallView> {
        match self.pending {
            Some(ref p) => Some(p@),
            None => None,
        }
    }
}

impl ToolCallReconstructor {
    /// A fresh reconstructor with no call in progress.
    pub fn new() -> (r: Self)
        ensures
            r@ is None,
    {
        ToolCallReconstructor { pending: None }
    }

    /// Folds in one partial piece.
    ///
    /// A piece carrying a name while a call is in progress completes that
    /// call: it is finalized and emitted (or its invalid argument text is
    /// reported), and a new call starts from this piece. A piece arriving
    /// with no call in progress starts one. Any other piece appends its
    /// argument text to the call in progress.
    pub fn absorb(&mut self, piece: &PartialToolCall) -> (r: Result<
        Option<ToolCall>,
        OrchestrationError,
    >)
        ensures
            match old(self)@ {
                None => final(self)@ == Some(started(piece@)) && r matches Ok(None),
                Some(b) => match piece@.name {
                    Some(_) => final(self)@ == Some(started(piece@)) && (if completes(b) {
                        r matches Ok(Some(c)) && c@ == completed_call(b)
                    } else {
                        r matches Err(e) && e@ == (OrchestrationErrorView::InvalidToolArguments {
                            id: b.id,
                            raw: b.arguments,
                        })
                    }),
                    None => final(self)@ == Some(appended_fragment(b, piece@)) && r matches Ok(
                        None,
                    ),
                },
            },
    {
        let prev = self.pending.take();
        match prev {
            Some(b) => {
                if piece.name.is_some() {
                    self.pending = Some(start_pending(piece));
                    match flush_pending(b) {
                        Ok(c) => Ok(Some(c)),
                        Err(e) => Err(e),
                    }
                } else {
                    let mut grown = b;
                    let ghost before = grown@;
                    if let Some(frag) = &piece.arguments_fragment {
                        grown.arguments.append(frag.as_str());
                    }
                    proof {
                        assert(grown@ =~= appended_fragment(before, piece@));
                    }
                    self.pending = Some(grown);
                    Ok(None)
                }
            },
            None => {
                self.pending = Some(start_pending(piece));
                Ok(None)
            },
        }
    }

    /// Finalizes the call in progress, if any: called on the fragment
    /// that carries the tool-call termination reason, and at end of
    /// stream.
    pub fn finish(&mut self) -> (r: Result<Option<ToolCall>, OrchestrationError>)
        ensures
            final(self)@ is None,
            match old(self)@ {
                None => r matches Ok(None),
                Some(b) => if completes(b) {
                    r matches Ok(Some(c)) && c@ == completed_call(b)
                } else {
                    r matches Err(e) && e@ == (OrchestrationErrorView::InvalidToolArguments {
                        id: b.id,
                        raw: b.arguments,
                    })
                },
            },
    {
        match self.pending.take() {
            None => Ok(None),
            Some(b) => match flush_pending(b) {
                Ok(c) => Ok(Some(c)),
                Err(e) => Err(e),
            },
        }
    }
}

/// The result of running the reconstructor over `pieces` starting from
/// the call in progress `b` and finalizing at the end: the finished
/// records in emission order, or the id and raw text of the first call
/// whose accumulated argument text fails to parse.
pub open spec fn reconstruct_spec(b: Option<PendingToolCallView>, pieces: Seq<PartialToolCallView>)
    -> Result<Seq<ToolCallView>, (Seq<char>, Seq<char>)>
    decreases pieces.len(),
{
    if pieces.len() == 0 {
        match b {
            None => Ok(Seq::<ToolCallView>::empty()),
            Some(p) => if completes(p) {
                Ok(seq![completed_call(p)])
            } else {
                Err((p.id, p.arguments))
            },
        }
    } else {
        let piece = pieces[0];
        match b {
            None => reconstruct_spec(Some(started(piece)), pieces.drop_first()),
            Some(p) => match piece.name {
                Some(_) => if completes(p) {
                    match reconstruct_spec(Some(started(piece)), pieces.drop_first()) {
                        Ok(rest) => Ok(seq![completed_call(p)] + rest),
                        Err(e) => Err(e),
                    }
                } else {
                    Err((p.id, p.arguments))
                },
                None => reconstruct_spec(Some(appended_fragment(p, piece)), pieces.drop_first()),
            },
        }
    }
}

/// Runs the reconstructor over a whole sequence of partial pieces and
/// finalizes at the end, emitting the finished tool calls in order, or
/// the first invalid-arguments failure.
pub fn reconstruct_tool_calls(pieces: &Vec<PartialToolCall>) -> (r: Result<
    Vec<ToolCall>,
    OrchestrationError,
>)
    ensures
        match reconstruct_spec(None, pieces.deep_view()) {
            Ok(cs) => r matches Ok(v) && v.deep_view() == cs,
            Err(e) => r matches Err(err) && err@ == (OrchestrationErrorView::InvalidToolArguments {
                id: e.0,
                raw: e.1,
            }),
        },
{
    let ghost all = pieces.deep_view();
    let mut recon = ToolCallReconstructor::new();
    let mut out: Vec<ToolCall> = Vec::new();
    let mut i: usize = 0;
    proof {
        assert(recon@ == None::<PendingToolCallView>);
        assert(all.skip(0) =~= all);
        assert(out.deep_view() =~= Seq::<ToolCallView>::empty());
        if let Ok(full) = reconstruct_spec(None, all) {
            assert(out.deep_view() + full =~= full);
        }
    }
    while i < pieces.len()
        invariant
            0 <= i <= pieces@.len(),
            all == pieces.deep_view(),
            pieces@.len() == all.len(),
            match reconstruct_spec(recon@, all.skip(i as int)) {
                Ok(rest) => reconstruct_spec(None, all) matches Ok(full) && full == out.deep_view()
                    + rest,
                Err(e) => reconstruct_spec(None, all) == Err::<Seq<ToolCallView>, _>(e),
            },
        decreases pieces@.len() - i,
    {
        let ghost rec_before = recon@;
        let ghost out_before = out.deep_view();
        proof {
            assert(all.skip(i as int)[0] == all[i as int]);
            assert(all.skip(i as int).drop_first() =~= all.skip(i as int + 1));
            assert(pieces@[i as int]@ == all[i as int]);
        }
        match recon.absorb(&pieces[i]) {
            Ok(Some(c)) => {
                out.push(c);
                proof {
                    assert(out.deep_view() =~= out_before.push(c@));
                    if let Ok(rest) = reconstruct_spec(recon@, all.skip(i as int + 1)) {
                        assert(out_before + (seq![c@] + rest) =~= out.deep_view() + rest);
                    }
                }
            },
            Ok(None) => {
            },
            Err(e) => {
                return Err(e);
            },
        }
        i += 1;
    }
    proof {
        assert(all.skip(pieces@.len() as int) =~= Seq::<PartialToolCallView>::empty());
    }
    let ghost out_before = out.deep_view();
    match recon.finish() {
        Ok(Some(c)) => {
            out.push(c);
            proof {
                assert(out.deep_view() =~= out_before.push(c@));
                assert(out_before + seq![c@] =~= out.deep_view());
            }
            Ok(out)
        },
        Ok(None) => {
            proof {
                assert(out_before + Seq::<ToolCallView>::empty() =~= out.deep_view());
            }
            Ok(out)
        },
        Err(e) => Err(e),
    }
}

} // verus!
