//! The dispatcher's decisions: from the session and the next input event to
//! the next session and the action to take.

use vstd::prelude::*;

use crate::protocol::{init_text, InitResponse, Operation, Request};

verus! {

/// What the reader of the input stream saw next.
pub enum Event {
    /// A line that decoded as a request.
    Line(Request),
    /// A line that is not JSON, or matches no request.
    Malformed,
    /// Reading the input stream failed.
    ReadFailed,
    /// The input stream ended.
    EndOfInput,
}

/// What the session loop must do next.
pub enum Action {
    /// Stop the process with this exit status; nothing more is read.
    Exit { code: i32 },
    /// Send this record.
    Reply(String),
    /// Run a download to completion before reading on.
    Download { oid: String, size: usize },
    /// Run an upload to completion before reading on.
    Upload { oid: String, size: usize, path: String },
}

/// The negotiated operation and remote, and whether the session has ended.
pub struct Session {
    operation: Option<Operation>,
    remote: Option<String>,
    ended: bool,
}

impl Session {
    pub closed spec fn spec_operation(&self) -> Option<Operation> {
        self.operation
    }

    pub closed spec fn spec_remote(&self) -> Option<Seq<char>> {
        match self.remote {
            None => None,
            Some(r) => Some(r@),
        }
    }

    pub closed spec fn spec_ended(&self) -> bool {
        self.ended
    }

    /// A session before `init`.
    pub fn new() -> (r: Self)
        ensures
            r.spec_operation() is None,
            r.spec_remote() is None,
            !r.spec_ended(),
    {
        Session { operation: None, remote: None, ended: false }
    }

    pub fn operation(&self) -> (r: Option<Operation>)
        ensures
            r == self.spec_operation(),
    {
        self.operation
    }

    pub fn remote(&self) -> (r: Option<&String>)
        ensures
            match r {
                None => self.spec_remote() is None,
                Some(s) => self.spec_remote() == Some(s@),
            },
    {
        match &self.remote {
            None => None,
            Some(s) => Some(s),
        }
    }

    pub fn is_ended(&self) -> (r: bool)
        ensures
            r == self.spec_ended(),
    {
        self.ended
    }

    /// Decides what to do with the next input event. `terminate` ends the
    /// session with status 0 at any point; `init` records the operation and
    /// remote and is acknowledged without error whatever their values; a
    /// transfer request is handed on unchanged; a malformed line, a failed
    /// read or the end of input ends the session with status 1.
    pub fn step(&mut self, event: Event) -> (r: Action)
        requires
            !old(self).spec_ended(),
        ensures
            match event {
                Event::Line(Request::Terminate) => r == Action::Exit { code: 0 }
                    && final(self).spec_ended(),
                Event::Line(Request::Init { operation, remote, .. }) => r is Reply
                    && r->Reply_0@ == init_text(InitResponse { error: None })
                    && r->Reply_0@ == "{}"@
                    && final(self).spec_operation() == Some(operation)
                    && final(self).spec_remote() == Some(remote@)
                    && !final(self).spec_ended(),
                Event::Line(Request::Download { oid, size }) => r == (Action::Download { oid, size })
                    && *final(self) == *old(self),
                Event::Line(Request::Upload { oid, size, path }) => r == (Action::Upload {
                    oid,
                    size,
                    path,
                }) && *final(self) == *old(self),
                _ => r == Action::Exit { code: 1 } && final(self).spec_ended(),
            },
    {
        match event {
            Event::Line(Request::Terminate) => {
                self.ended = true;
                Action::Exit { code: 0 }
            },
            Event::Line(Request::Init { operation, remote, .. }) => {
                self.operation = Some(operation);
                self.remote = Some(remote);
                Action::Reply(InitResponse::new(None).json())
            },
            Event::Line(Request::Download { oid, size }) => Action::Download { oid, size },
            Event::Line(Request::Upload { oid, size, path }) => Action::Upload { oid, size, path },
            _ => {
                self.ended = true;
                Action::Exit { code: 1 }
            },
        }
    }
}

} // verus!
