//! The wire-level unit exchanged in either direction, and the pure
//! relay/transform step applied to each inbound message before it is queued
//! for output.

use vstd::prelude::*;

verus! {

/// The abstract value of a [`Message`]: its two text fields as sequences of
/// characters.
pub ghost struct MessageModel {
    pub content: Seq<char>,
    pub sender: Seq<char>,
}

/// A chat message: a payload text and the identity label of the party that
/// produced it. Immutable once constructed; stages copy or move it, never
/// mutate it in place.
#[derive(Debug, Clone, PartialEq, Eq)]
pub struct Message {
    pub content: String,
    pub sender: String,
}

impl View for Message {
    type V = MessageModel;

    open spec fn view(&self) -> MessageModel {
        MessageModel { content: self.content@, sender: self.sender@ }
    }
}

/// The abstract values of a sequence of messages.
pub open spec fn models_of(s: Seq<Message>) -> Seq<MessageModel> {
    s.map_values(|m: Message| m@)
}

/// What the relay/transform stage does to one inbound message: the content
/// is rewritten as `"<label>: " + content` and the sender becomes the
/// relaying party's label.
pub open spec fn relayed_model(m: MessageModel, label: Seq<char>) -> MessageModel {
    MessageModel { content: label + ": "@ + m.content, sender: label }
}

/// The whole outbound direction of one session as a function of its inbound
/// direction: each message relayed, order preserved.
pub open spec fn relayed_all(inbound: Seq<MessageModel>, label: Seq<char>) -> Seq<MessageModel> {
    inbound.map_values(|m: MessageModel| relayed_model(m, label))
}

impl Message {
    pub fn new(content: String, sender: String) -> (r: Message)
        ensures
            r@.content == content@,
            r@.sender == sender@,
    {
        Message { content, sender }
    }

    /// A field-by-field copy with the same abstract value.
    pub fn duplicate(&self) -> (r: Message)
        ensures
            r@ == self@,
    {
        Message { content: self.content.clone(), sender: self.sender.clone() }
    }
}

/// The pure relay/transform stage: reshape one message, stamping it with the
/// relaying party's identity. No state, no I/O.
pub fn relay_transform(m: &Message, label: &str) -> (r: Message)
    ensures
        r@ == relayed_model(m@, label@),
{
    let mut content = label.to_owned();
    content.append(": ");
    content.append(m.content.as_str());
    Message { content, sender: label.to_owned() }
}

/// Relaying keeps distinct contents distinct: under one label, two messages
/// with different payloads are relayed to different payloads.
pub proof fn lemma_relay_distinct_content(a: MessageModel, b: MessageModel, label: Seq<char>)
    requires
        a.content != b.content,
    ensures
        relayed_model(a, label).content != relayed_model(b, label).content,
{
    let pre = label + ": "@;
    if relayed_model(a, label).content == relayed_model(b, label).content {
        assert(a.content =~= (pre + a.content).skip(pre.len() as int));
        assert(b.content =~= (pre + b.content).skip(pre.len() as int));
        assert(false);
    }
}

/// Session isolation: the outbound direction of a session is a function of
/// its own inbound direction alone — message `i` out is exactly the relay of
/// message `i` in — and two sessions fed disjoint payload sets emit disjoint
/// payload sets, so neither ever observes a message of the other.
pub proof fn lemma_session_isolation(
    in1: Seq<MessageModel>,
    in2: Seq<MessageModel>,
    label: Seq<char>,
)
    requires
        forall|i: int, j: int|
            0 <= i < in1.len() && 0 <= j < in2.len() ==> in1[i].content != in2[j].content,
    ensures
        relayed_all(in1, label).len() == in1.len(),
        forall|i: int|
            0 <= i < in1.len() ==> relayed_all(in1, label)[i] == relayed_model(in1[i], label),
        relayed_all(in2, label).len() == in2.len(),
        forall|j: int|
            0 <= j < in2.len() ==> relayed_all(in2, label)[j] == relayed_model(in2[j], label),
        forall|i: int, j: int|
            0 <= i < in1.len() && 0 <= j < in2.len() ==> relayed_all(in1, label)[i].content
                != relayed_all(in2, label)[j].content,
{
    assert forall|i: int, j: int| 0 <= i < in1.len() && 0 <= j < in2.len() implies relayed_all(
        in1,
        label,
    )[i].content != relayed_all(in2, label)[j].content by {
        lemma_relay_distinct_content(in1[i], in2[j], label);
    }
}

} // verus!
