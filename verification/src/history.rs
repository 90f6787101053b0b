//! The conversation-state builder: an ordered, append-only sequence of
//! messages. Every mutating operation consumes the previous state and
//! returns a new state value, so no state value is ever aliased after it
//! has been advanced.

use vstd::prelude::*;

use crate::model::Message;
use crate::model::MessageView;

verus! {

/// Conversation state: an ordered, append-only sequence of messages.
#[derive(Debug)]
pub struct ContextBuilder {
    pub history: Vec<Message>,
}

impl View for ContextBuilder {
    type V = Seq<MessageView>;

    open spec fn view(&self) -> Seq<MessageView> {
        self.history.deep_view()
    }
}

impl Clone for ContextBuilder {
    fn clone(&self) -> (r: Self)
        ensures
            r@ == self@,
    {
        let history = self.history.clone();
        proof {
            assert forall|i: int| 0 <= i < history@.len() implies history@[i]@
                == self.history@[i]@ by {
                assert(cloned::<Message>(self.history@[i], history@[i]));
            }
            assert(history.deep_view() =~= self.history.deep_view());
        }
        ContextBuilder { history }
    }
}

impl ContextBuilder {
    /// Appends one message; the new state's sequence is the old one with
    /// the message at the end, and nothing else changes.
    pub fn add_message(self, msg: Message) -> (r: Self)
        ensures
            r@ == self@.push(msg@),
    {
        let mut this = self;
        this.history.push(msg);
        proof {
            assert(this.history.deep_view() =~= self@.push(msg@));
        }
        this
    }

    /// Applies a caller-supplied transformation, passing ownership of the
    /// state down the chain.
    pub fn transform_with<F: FnOnce(Self) -> Self>(self, transformer: F) -> (r: Self)
        requires
            call_requires(transformer, (self,)),
        ensures
            call_ensures(transformer, (self,), r),
    {
        transformer(self)
    }
}

/// The state reached from history `h` by appending the messages of `msgs`
/// one at a time, in order.
pub open spec fn appended(h: Seq<MessageView>, msgs: Seq<MessageView>) -> Seq<MessageView>
    decreases msgs.len(),
{
    if msgs.len() == 0 {
        h
    } else {
        appended(h.push(msgs[0]), msgs.drop_first())
    }
}

/// Law: history is append-only. For every sequence of `add_message` calls,
/// the resulting state's message sequence is exactly the starting sequence
/// followed by the appended messages, in call order; no earlier message is
/// removed or changed.
pub proof fn lemma_append_only(h: Seq<MessageView>, msgs: Seq<MessageView>)
    ensures
        appended(h, msgs) == h + msgs,
    decreases msgs.len(),
{
    if msgs.len() == 0 {
        assert(appended(h, msgs) =~= h + msgs);
    } else {
        lemma_append_only(h.push(msgs[0]), msgs.drop_first());
        assert(h.push(msgs[0]) + msgs.drop_first() =~= h + msgs);
    }
}

} // verus!
