//! The thread decorator of a message.
use crate::text::{clone_opt, opt_str_is};
use vstd::prelude::*;

verus! {

/// The thread decorator: the thread that the message replies to, if it names
/// one.
#[derive(Debug)]
pub struct Thread {
    pub thid: Option<String>,
}

impl View for Thread {
    type V = Option<Seq<char>>;

    open spec fn view(&self) -> Option<Seq<char>> {
        self.thid.deep_view()
    }
}

impl Clone for Thread {
    fn clone(&self) -> (r: Self)
        ensures
            r@ == self@,
    {
        Thread { thid: clone_opt(&self.thid) }
    }
}

/// The thread that a message belongs to when it may open one: the thread it
/// replies to, or else the thread that its own id opens.
pub open spec fn thread_or_id(id: Seq<char>, thread: Option<Seq<char>>) -> Seq<char> {
    match thread {
        Some(thid) => thid,
        None => id,
    }
}

impl Thread {
    /// A decorator that names no thread.
    pub fn new() -> (r: Self)
        ensures
            r@ == None::<Seq<char>>,
    {
        Thread { thid: None }
    }

    /// This decorator, naming the given thread.
    pub fn set_thid(self, thid: String) -> (r: Self)
        ensures
            r@ == Some(thid@),
    {
        Thread { thid: Some(thid) }
    }

    /// Whether the message declares itself a reply to the given thread.
    pub fn is_reply(&self, id: &str) -> (r: bool)
        ensures
            r == (self@ == Some(id@)),
    {
        opt_str_is(&self.thid, id)
    }

    /// The thread of a message that may open one.
    pub fn or_id(&self, id: &String) -> (r: String)
        ensures
            r@ == thread_or_id(id@, self@),
    {
        match &self.thid {
            Some(thid) => thid.clone(),
            None => id.clone(),
        }
    }
}

} // verus!
