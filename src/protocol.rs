//! The messages of the transfer protocol and their exact wire text.

use vstd::prelude::*;

use crate::json::{
    decimal, decimal_signed, decimal_text, json_string, lemma_single_line_concat, quote, signed_text,
    single_line,
};

verus! {

/// A structured failure attached to an init acknowledgement or a completion.
#[derive(Clone, Debug, PartialEq)]
pub struct ProtocolError {
    pub code: i32,
    pub message: String,
}

/// The direction negotiated for a session.
#[derive(Clone, Copy, Debug, PartialEq, Eq, Structural)]
pub enum Operation {
    Upload,
    Download,
}

/// One inbound request, selected by its `event` field.
#[derive(Clone, Debug, PartialEq)]
pub enum Request {
    Terminate,
    Download { oid: String, size: usize },
    Upload { oid: String, size: usize, path: String },
    Init { operation: Operation, remote: String, concurrent: bool, concurrenttransfers: i32 },
}

/// The reply to `init`.
#[derive(Clone, Debug, PartialEq)]
pub struct InitResponse {
    pub error: Option<ProtocolError>,
}

/// The one terminal message of a transfer.
#[derive(Clone, Debug, PartialEq)]
pub enum TransferResponse {
    Successful { event: String, oid: String, path: Option<String> },
    Error { event: String, oid: String, error: ProtocolError },
}

/// The message sent for each chunk moved.
#[derive(Clone, Debug, PartialEq)]
pub struct ProgressResponse {
    pub event: String,
    pub oid: String,
    pub bytes_so_far: usize,
    pub bytes_since_last: usize,
}

/// Wire text of a protocol error object.
pub open spec fn error_text(e: ProtocolError) -> Seq<char> {
    "{\"code\":"@ + signed_text(e.code as int) + ",\"message\":"@ + json_string(e.message@) + "}"@
}

/// Wire text of an init acknowledgement: the error key is absent when there is none.
pub open spec fn init_text(r: InitResponse) -> Seq<char> {
    match r.error {
        None => "{}"@,
        Some(e) => "{\"error\":"@ + error_text(e) + "}"@,
    }
}

/// Wire text of a completion: `path` and `error` appear only when present.
pub open spec fn transfer_text(r: TransferResponse) -> Seq<char> {
    match r {
        TransferResponse::Successful { event, oid, path } => match path {
            None => "{\"event\":"@ + json_string(event@) + ",\"oid\":"@ + json_string(oid@) + "}"@,
            Some(p) => "{\"event\":"@ + json_string(event@) + ",\"oid\":"@ + json_string(oid@)
                + ",\"path\":"@ + json_string(p@) + "}"@,
        },
        TransferResponse::Error { event, oid, error } => "{\"event\":"@ + json_string(event@)
            + ",\"oid\":"@ + json_string(oid@) + ",\"error\":"@ + error_text(error) + "}"@,
    }
}

/// Wire text of a progress message, with its mixed-case keys.
pub open spec fn progress_text(r: ProgressResponse) -> Seq<char> {
    "{\"event\":"@ + json_string(r.event@) + ",\"oid\":"@ + json_string(r.oid@)
        + ",\"bytesSoFar\":"@ + decimal_text(r.bytes_so_far as nat) + ",\"bytesSinceLast\":"@
        + decimal_text(r.bytes_since_last as nat) + "}"@
}

/// Every fixed piece of the wire text is single-line.
proof fn lemma_pieces_single_line()
    ensures
        single_line("{\"code\":"@),
        single_line(",\"message\":"@),
        single_line("}"@),
        single_line("{}"@),
        single_line("{\"error\":"@),
        single_line("{\"event\":"@),
        single_line(",\"oid\":"@),
        single_line(",\"path\":"@),
        single_line(",\"error\":"@),
        single_line(",\"bytesSoFar\":"@),
        single_line(",\"bytesSinceLast\":"@),
{
    reveal_strlit("{\"code\":");
    reveal_strlit(",\"message\":");
    reveal_strlit("}");
    reveal_strlit("{}");
    reveal_strlit("{\"error\":");
    reveal_strlit("{\"event\":");
    reveal_strlit(",\"oid\":");
    reveal_strlit(",\"path\":");
    reveal_strlit(",\"error\":");
    reveal_strlit(",\"bytesSoFar\":");
    reveal_strlit(",\"bytesSinceLast\":");
}

fn error_json(e: &ProtocolError) -> (r: String)
    ensures
        r@ == error_text(*e),
        single_line(r@),
{
    broadcast use lemma_single_line_concat;

    proof {
        lemma_pieces_single_line();
    }

    let mut s = String::from_str("{\"code\":");
    let code = decimal_signed(e.code);
    s.append(code.as_str());
    s.append(",\"message\":");
    let m = quote(e.message.as_str());
    s.append(m.as_str());
    s.append("}");
    s
}

impl ProtocolError {
    pub fn new(code: i32, message: String) -> (r: Self)
        ensures
            r.code == code,
            r.message@ == message@,
    {
        ProtocolError { code, message }
    }

    pub fn json(&self) -> (r: String)
        ensures
            r@ == error_text(*self),
            single_line(r@),
    {
        broadcast use lemma_single_line_concat;

        proof {
            lemma_pieces_single_line();
        }

        error_json(self)
    }
}

impl InitResponse {
    pub fn new(error: Option<ProtocolError>) -> (r: Self)
        ensures
            r == (InitResponse { error }),
    {
        InitResponse { error }
    }

    pub fn json(&self) -> (r: String)
        ensures
            r@ == init_text(*self),
            single_line(r@),
    {
        broadcast use lemma_single_line_concat;

        proof {
            lemma_pieces_single_line();
        }

        match &self.error {
            None => String::from_str("{}"),
            Some(e) => {
                let mut s = String::from_str("{\"error\":");
                let inner = error_json(e);
                s.append(inner.as_str());
                s.append("}");
                s
            },
        }
    }
}

impl TransferResponse {
    /// The completion of a transfer: a success with an optional local path,
    /// or a failure with its error.
    pub fn new(oid: String, response: Result<Option<String>, ProtocolError>) -> (r: Self)
        ensures
            match response {
                Ok(path) => r == (TransferResponse::Successful {
                    event: r->Successful_event,
                    oid,
                    path,
                }) && r->Successful_event@ == "complete"@,
                Err(error) => r == (TransferResponse::Error { event: r->Error_event, oid, error })
                    && r->Error_event@ == "complete"@,
            },
    {
        let event = String::from_str("complete");
        match response {
            Ok(path) => TransferResponse::Successful { event, oid, path },
            Err(error) => TransferResponse::Error { event, oid, error },
        }
    }

    pub fn json(&self) -> (r: String)
        ensures
            r@ == transfer_text(*self),
            single_line(r@),
    {
        broadcast use lemma_single_line_concat;

        proof {
            lemma_pieces_single_line();
        }

        let mut s = String::from_str("{\"event\":");
        match self {
            TransferResponse::Successful { event, oid, path } => {
                let e = quote(event.as_str());
                s.append(e.as_str());
                s.append(",\"oid\":");
                let o = quote(oid.as_str());
                s.append(o.as_str());
                match path {
                    None => {},
                    Some(p) => {
                        s.append(",\"path\":");
                        let q = quote(p.as_str());
                        s.append(q.as_str());
                    },
                }
            },
            TransferResponse::Error { event, oid, error } => {
                let e = quote(event.as_str());
                s.append(e.as_str());
                s.append(",\"oid\":");
                let o = quote(oid.as_str());
                s.append(o.as_str());
                s.append(",\"error\":");
                let t = error_json(error);
                s.append(t.as_str());
            },
        }
        s.append("}");
        s
    }
}

impl ProgressResponse {
    pub fn new(oid: String, bytes_so_far: usize, bytes_since_last: usize) -> (r: Self)
        ensures
            r.event@ == "progress"@,
            r.oid == oid,
            r.bytes_so_far == bytes_so_far,
            r.bytes_since_last == bytes_since_last,
    {
        ProgressResponse { event: String::from_str("progress"), oid, bytes_so_far, bytes_since_last }
    }

    pub fn json(&self) -> (r: String)
        ensures
            r@ == progress_text(*self),
            single_line(r@),
    {
        broadcast use lemma_single_line_concat;

        proof {
            lemma_pieces_single_line();
        }

        let mut s = String::from_str("{\"event\":");
        let e = quote(self.event.as_str());
        s.append(e.as_str());
        s.append(",\"oid\":");
        let o = quote(self.oid.as_str());
        s.append(o.as_str());
        s.append(",\"bytesSoFar\":");
        let a = decimal(self.bytes_so_far);
        s.append(a.as_str());
        s.append(",\"bytesSinceLast\":");
        let b = decimal(self.bytes_since_last);
        s.append(b.as_str());
        s.append("}");
        s
    }
}

} // verus!
