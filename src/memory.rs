//! Conversation memory: a bounded first-in first-out record of the public
//! envelopes seen lately, from which model context is assembled.

use vstd::prelude::*;
use crate::llm::ChatMessage;
use crate::message::{Envelope, EnvelopeType, Payload, ResultContent, SenderKind};

verus! {

/// The text that a result content carries, where it has one.
pub open spec fn content_text(c: ResultContent) -> Option<String> {
    match c {
        ResultContent::Ack(a) => Some(a.text),
        ResultContent::Progress(p) => Some(p.text),
        ResultContent::Finding(f) => f.text,
        ResultContent::Risk(r) => Some(r.text),
        ResultContent::Result(r) => Some(r.text),
        _ => None,
    }
}

/// The chat role of a sender kind: people and the system speak as the user,
/// agents as the assistant.
pub open spec fn role_of(k: SenderKind) -> Seq<char> {
    match k {
        SenderKind::Agent => "assistant"@,
        _ => "user"@,
    }
}

/// The text that envelope `e` contributes to model context, if any: the
/// sender's id, a colon, and what was said or reported.
pub open spec fn context_text(e: Envelope) -> Option<Seq<char>> {
    match e.payload {
        Payload::Say(p) => if e.message_type == EnvelopeType::Say {
            Some(e.from.id@ + ": "@ + p.text@)
        } else {
            None
        },
        Payload::Result(r) => if e.message_type == EnvelopeType::Result && content_text(
            r.content,
        ) is Some {
            Some(e.from.id@ + ": "@ + content_text(r.content).unwrap()@)
        } else {
            None
        },
        _ => None,
    }
}

/// The (role, content) lines that the envelopes `s` contribute, in order.
pub open spec fn context_lines(s: Seq<Envelope>) -> Seq<(Seq<char>, Seq<char>)>
    decreases s.len(),
{
    if s.len() == 0 {
        Seq::empty()
    } else {
        context_lines(s.drop_last()) + match context_text(s.last()) {
            Some(t) => seq![(role_of(s.last().from.kind), t)],
            None => Seq::empty(),
        }
    }
}

/// `m` is a plain chat message with role `line.0` and content `line.1`.
pub open spec fn is_chat_line(m: ChatMessage, line: (Seq<char>, Seq<char>)) -> bool {
    &&& m.role@ == line.0
    &&& m.content matches Some(c) && c@ == line.1
    &&& m.tool_calls is None
    &&& m.tool_call_id is None
}

/// Whether an envelope with id `id` is among `s`.
pub open spec fn holds_id(s: Seq<Envelope>, id: Seq<char>) -> bool {
    exists|i: int| 0 <= i < s.len() && (#[trigger] s[i]).id@ == id
}

/// The memory after `e` is recorded with capacity `cap`: the oldest entry
/// leaves when the memory is full.
pub open spec fn recorded(s: Seq<Envelope>, e: Envelope, cap: nat) -> Seq<Envelope> {
    if s.len() >= cap && s.len() > 0 {
        s.drop_first().push(e)
    } else {
        s.push(e)
    }
}

/// A bounded FIFO of recently seen public envelopes.
#[derive(Debug)]
pub struct MessageHistory {
    messages: Vec<Envelope>,
    max_messages: usize,
}

impl View for MessageHistory {
    type V = Seq<Envelope>;

    closed spec fn view(&self) -> Seq<Envelope> {
        self.messages@
    }
}

impl MessageHistory {
    /// The capacity.
    pub closed spec fn capacity(&self) -> nat {
        self.max_messages as nat
    }

    /// The memory holds no more than its capacity, or one entry where the
    /// capacity is zero.
    pub open spec fn wf(&self) -> bool {
        self@.len() <= self.capacity() || self@.len() <= 1
    }

    /// An empty memory that keeps the `max_messages` latest envelopes.
    pub fn new(max_messages: usize) -> (r: Self)
        ensures
            r@ == Seq::<Envelope>::empty(),
            r.capacity() == max_messages,
    {
        MessageHistory { messages: Vec::new(), max_messages }
    }

    /// Records an envelope, dropping the oldest one when the memory is full.
    pub fn add(&mut self, envelope: Envelope)
        requires
            old(self).wf(),
        ensures
            final(self).wf(),
            final(self).capacity() == old(self).capacity(),
            final(self)@ == recorded(old(self)@, envelope, old(self).capacity()),
    {
        if self.messages.len() >= self.max_messages && self.messages.len() > 0 {
            let _ = self.messages.remove(0);
        }
        self.messages.push(envelope);
    }

    /// The number of envelopes held.
    pub fn len(&self) -> (r: usize)
        ensures
            r == self@.len(),
    {
        self.messages.len()
    }

    pub fn is_empty(&self) -> (r: bool)
        ensures
            r == (self@.len() == 0),
    {
        self.messages.len() == 0
    }

    /// Whether an envelope with this id is held.
    pub fn contains_id(&self, id: &str) -> (r: bool)
        ensures
            r == holds_id(self@, id@),
    {
        let k = String::from_str(id);
        let mut i: usize = 0;
        while i < self.messages.len()
            invariant
                i <= self@.len(),
                k@ == id@,
                forall|j: int| 0 <= j < i ==> (#[trigger] self@[j]).id@ != id@,
            decreases self@.len() - i,
        {
            if self.messages[i].id == k {
                return true;
            }
            i = i + 1;
        }
        false
    }

    /// The model context that the memory makes: one chat message per said
    /// text or reported text, oldest first.
    pub fn to_chat_messages(&self) -> (r: Vec<ChatMessage>)
        ensures
            r@.len() == context_lines(self@).len(),
            forall|i: int| 0 <= i < r@.len() ==> is_chat_line(#[trigger] r@[i], context_lines(self@)[i]),
    {
        let mut r: Vec<ChatMessage> = Vec::new();
        let mut i: usize = 0;
        while i < self.messages.len()
            invariant
                i <= self@.len(),
                r@.len() == context_lines(self@.take(i as int)).len(),
                forall|j: int|
                    0 <= j < r@.len() ==> is_chat_line(
                        #[trigger] r@[j],
                        context_lines(self@.take(i as int))[j],
                    ),
            decreases self@.len() - i,
        {
            let e = &self.messages[i];
            assert(self@.take(i + 1).drop_last() =~= self@.take(i as int));
            let text: Option<&String> = match &e.payload {
                Payload::Say(p) => if e.message_type == EnvelopeType::Say {
                    Some(&p.text)
                } else {
                    None
                },
                Payload::Result(res) => if e.message_type == EnvelopeType::Result {
                    match &res.content {
                        ResultContent::Ack(a) => Some(&a.text),
                        ResultContent::Progress(p) => Some(&p.text),
                        ResultContent::Finding(f) => match &f.text {
                            Some(t) => Some(t),
                            None => None,
                        },
                        ResultContent::Risk(k) => Some(&k.text),
                        ResultContent::Result(o) => Some(&o.text),
                        _ => None,
                    }
                } else {
                    None
                },
                _ => None,
            };
            match text {
                Some(t) => {
                    let mut c = e.from.id.clone();
                    c.append(": ");
                    c.append(t.as_str());
                    let role = match e.from.kind {
                        SenderKind::Agent => String::from_str("assistant"),
                        _ => String::from_str("user"),
                    };
                    r.push(ChatMessage { role, content: Some(c), tool_calls: None, tool_call_id: None });
                },
                None => {},
            }
            i = i + 1;
        }
        assert(self@.take(self@.len() as int) =~= self@);
        r
    }
}

impl Default for MessageHistory {
    /// A memory of the fifty latest envelopes.
    fn default() -> (r: Self)
        ensures
            r@ == Seq::<Envelope>::empty(),
            r.capacity() == 50,
    {
        MessageHistory::new(50)
    }
}

} // verus!
