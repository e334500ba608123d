//! The two messages that close an interaction, acknowledgement and problem
//! report, and the status that a closed interaction records.
use crate::ids::{fresh_id, is_uuid_text};
use crate::messages::thread::Thread;
use crate::text::clone_opt;
use vstd::prelude::*;

verus! {

/// The acknowledgement of a received credential.
#[derive(Debug)]
pub struct Ack {
    pub id: String,
    pub thread: Thread,
}

/// What an `Ack` holds.
pub struct AckView {
    pub id: Seq<char>,
    pub thread: Option<Seq<char>>,
}

impl View for Ack {
    type V = AckView;

    open spec fn view(&self) -> AckView {
        AckView { id: self.id@, thread: self.thread@ }
    }
}

impl Clone for Ack {
    fn clone(&self) -> (r: Self)
        ensures
            r@ == self@,
    {
        Ack { id: self.id.clone(), thread: self.thread.clone() }
    }
}

impl Ack {
    /// An acknowledgement outside any thread, under a fresh id: a random UUID
    /// in its hyphenated form.
    pub fn create() -> (r: Self)
        ensures
            r@ == (AckView { id: r@.id, thread: None }),
            is_uuid_text(r@.id),
    {
        Ack::create_with_id(fresh_id())
    }

    /// An acknowledgement outside any thread, under the given id.
    pub fn create_with_id(id: String) -> (r: Self)
        ensures
            r@ == (AckView { id: id@, thread: None }),
    {
        Ack { id, thread: Thread::new() }
    }

    /// This acknowledgement as a reply in the given thread.
    pub fn set_thread_id(self, thread_id: &str) -> (r: Self)
        ensures
            r@ == (AckView { thread: Some(thread_id@), ..self@ }),
    {
        Ack { thread: Thread::new().set_thid(thread_id.to_owned()), ..self }
    }

    /// Whether this acknowledgement replies to the given thread.
    pub fn from_thread(&self, thread_id: &str) -> (r: bool)
        ensures
            r == (self@.thread == Some(thread_id@)),
    {
        self.thread.is_reply(thread_id)
    }
}

/// The report of a problem, which ends the interaction in failure.
#[derive(Debug)]
pub struct ProblemReport {
    pub id: String,
    pub comment: Option<String>,
    pub thread: Thread,
}

/// What a `ProblemReport` holds.
pub struct ProblemReportView {
    pub id: Seq<char>,
    pub comment: Option<Seq<char>>,
    pub thread: Option<Seq<char>>,
}

impl View for ProblemReport {
    type V = ProblemReportView;

    open spec fn view(&self) -> ProblemReportView {
        ProblemReportView {
            id: self.id@,
            comment: self.comment.deep_view(),
            thread: self.thread@,
        }
    }
}

impl Clone for ProblemReport {
    fn clone(&self) -> (r: Self)
        ensures
            r@ == self@,
    {
        ProblemReport {
            id: self.id.clone(),
            comment: clone_opt(&self.comment),
            thread: self.thread.clone(),
        }
    }
}

/// The problem report with the given id, comment and thread.
pub open spec fn problem_report_of(
    id: Seq<char>,
    comment: Option<Seq<char>>,
    thread_id: Seq<char>,
) -> ProblemReportView {
    ProblemReportView { id, comment, thread: Some(thread_id) }
}

impl ProblemReport {
    /// A report without comment and outside any thread, under a fresh id: a
    /// random UUID in its hyphenated form.
    pub fn create() -> (r: Self)
        ensures
            r@ == (ProblemReportView { id: r@.id, comment: None, thread: None }),
            is_uuid_text(r@.id),
    {
        ProblemReport::create_with_id(fresh_id())
    }

    /// A report without comment and outside any thread, under the given id.
    pub fn create_with_id(id: String) -> (r: Self)
        ensures
            r@ == (ProblemReportView { id: id@, comment: None, thread: None }),
    {
        ProblemReport { id, comment: None, thread: Thread::new() }
    }

    /// This report with the given comment, or with none.
    pub fn set_comment(self, comment: Option<String>) -> (r: Self)
        ensures
            r@ == (ProblemReportView { comment: comment.deep_view(), ..self@ }),
    {
        ProblemReport { comment, ..self }
    }

    /// This report as a reply in the given thread.
    pub fn set_thread_id(self, thread_id: &str) -> (r: Self)
        ensures
            r@ == (ProblemReportView { thread: Some(thread_id@), ..self@ }),
    {
        ProblemReport { thread: Thread::new().set_thid(thread_id.to_owned()), ..self }
    }

    /// Whether this report replies to the given thread.
    pub fn from_thread(&self, thread_id: &str) -> (r: bool)
        ensures
            r == (self@.thread == Some(thread_id@)),
    {
        self.thread.is_reply(thread_id)
    }
}

/// How an interaction ended, if it has.
#[derive(Debug)]
pub enum Status {
    /// Still in progress.
    Undefined,
    Success,
    /// Ended by the given problem report.
    Failed(ProblemReport),
}

/// What a `Status` holds.
pub enum StatusView {
    Undefined,
    Success,
    Failed(ProblemReportView),
}

impl StatusView {
    /// The number that stands for the status: 0 in progress, 1 success,
    /// 2 failure.
    pub open spec fn code(self) -> u32 {
        match self {
            StatusView::Undefined => 0,
            StatusView::Success => 1,
            StatusView::Failed(_) => 2,
        }
    }
}

impl View for Status {
    type V = StatusView;

    open spec fn view(&self) -> StatusView {
        match self {
            Status::Undefined => StatusView::Undefined,
            Status::Success => StatusView::Success,
            Status::Failed(report) => StatusView::Failed(report@),
        }
    }
}

impl Clone for Status {
    fn clone(&self) -> (r: Self)
        ensures
            r@ == self@,
    {
        match self {
            Status::Undefined => Status::Undefined,
            Status::Success => Status::Success,
            Status::Failed(report) => Status::Failed(report.clone()),
        }
    }
}

impl Status {
    /// The number that stands for the status.
    pub fn code(&self) -> (r: u32)
        ensures
            r == self@.code(),
    {
        match self {
            Status::Undefined => 0,
            Status::Success => 1,
            Status::Failed(_) => 2,
        }
    }
}

} // verus!
