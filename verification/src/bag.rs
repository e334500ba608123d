//! The pending inbound messages of a connection, each under its key.
use crate::messages::a2a::{A2AMessage, A2AMessageView};
use crate::text::str_eq;
use vstd::prelude::*;

verus! {

/// The pending inbound messages, each under the key by which the connection
/// knows it, in the order in which the keys were first inserted.
#[derive(Debug)]
pub struct MessageBag {
    entries: Vec<(String, A2AMessage)>,
}

/// The index of the first entry under the given key, or the number of entries
/// where there is none.
pub open spec fn position_of(entries: Seq<(Seq<char>, A2AMessageView)>, key: Seq<char>) -> int
    decreases entries.len(),
{
    if entries.len() == 0 {
        0
    } else if entries[0].0 == key {
        0
    } else {
        1 + position_of(entries.drop_first(), key)
    }
}

/// The entries after a message was inserted under a key: in the place of the
/// entry that had the key, or else at the end.
pub open spec fn inserted(
    entries: Seq<(Seq<char>, A2AMessageView)>,
    key: Seq<char>,
    message: A2AMessageView,
) -> Seq<(Seq<char>, A2AMessageView)> {
    let at = position_of(entries, key);
    if at < entries.len() {
        entries.update(at, (key, message))
    } else {
        entries.push((key, message))
    }
}

/// Whether no key occurs twice.
pub open spec fn distinct_keys(entries: Seq<(Seq<char>, A2AMessageView)>) -> bool {
    forall|i: int, j: int|
        0 <= i < j < entries.len() ==> (#[trigger] entries[i]).0 != (#[trigger] entries[j]).0
}

proof fn lemma_position_of(entries: Seq<(Seq<char>, A2AMessageView)>, key: Seq<char>)
    ensures
        0 <= position_of(entries, key) <= entries.len(),
        position_of(entries, key) < entries.len() ==> entries[position_of(entries, key)].0 == key,
        forall|i: int| 0 <= i < position_of(entries, key) ==> (#[trigger] entries[i]).0 != key,
    decreases entries.len(),
{
    if entries.len() > 0 && entries[0].0 != key {
        let rest = entries.drop_first();
        lemma_position_of(rest, key);
        assert forall|i: int| 0 <= i < position_of(entries, key) implies (#[trigger] entries[i]).0
            != key by {
            if i > 0 {
                assert(entries[i] == rest[i - 1]);
            }
        }
    }
}

impl View for MessageBag {
    type V = Seq<(Seq<char>, A2AMessageView)>;

    closed spec fn view(&self) -> Seq<(Seq<char>, A2AMessageView)> {
        self.entries@.map_values(|e: (String, A2AMessage)| (e.0@, e.1@))
    }
}

impl MessageBag {
    /// No message.
    pub fn new() -> (r: Self)
        ensures
            r@ == Seq::<(Seq<char>, A2AMessageView)>::empty(),
    {
        MessageBag { entries: Vec::new() }
    }

    /// The number of messages.
    pub fn len(&self) -> (r: usize)
        ensures
            r == self@.len(),
    {
        self.entries.len()
    }

    /// Puts a message under a key: in the place of the message that had the
    /// key, or else behind all others. Where no key occurred twice, none does
    /// afterwards.
    pub fn insert(&mut self, key: String, message: A2AMessage)
        ensures
            final(self)@ == inserted(old(self)@, key@, message@),
            distinct_keys(old(self)@) ==> distinct_keys(final(self)@),
    {
        let ghost before = self@;
        let mut i: usize = 0;
        while i < self.entries.len()
            invariant
                i <= self.entries@.len(),
                self@ == before,
                before == old(self)@,
                forall|j: int| 0 <= j < i ==> (#[trigger] before[j]).0 != key@,
            decreases self.entries@.len() - i,
        {
            proof {
                lemma_position_of(before, key@);
            }
            assert(before[i as int].0 == self.entries@[i as int].0@);
            if str_eq(self.entries[i].0.as_str(), key.as_str()) {
                self.entries.set(i, (key, message));
                assert(self@ =~= inserted(before, key@, message@));
                return ;
            }
            i += 1;
        }
        proof {
            lemma_position_of(before, key@);
        }
        self.entries.push((key, message));
        assert(self@ =~= inserted(before, key@, message@));
    }

    /// The entries, in order.
    pub fn into_entries(self) -> (r: Vec<(String, A2AMessage)>)
        ensures
            r@.map_values(|e: (String, A2AMessage)| (e.0@, e.1@)) == self@,
    {
        self.entries
    }
}

} // verus!
