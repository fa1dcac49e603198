//! What a request is answered.

use vstd::prelude::*;

verus! {

/// Why a request is refused: a status code and a message for the client.
#[derive(Debug)]
pub struct Rejection {
    pub status: u16,
    pub message: String,
}

/// The status code and the message of a refusal.
pub struct RejectionView {
    pub status: u16,
    pub message: Seq<char>,
}

impl View for Rejection {
    type V = RejectionView;

    open spec fn view(&self) -> RejectionView {
        RejectionView { status: self.status, message: self.message@ }
    }
}

impl Rejection {
    /// A refusal with this status code and message.
    pub fn new(status: u16, message: &str) -> (r: Self)
        ensures
            r@ == rejection(status, message@),
    {
        Rejection { status, message: message.to_owned() }
    }
}

/// The refusal with this status code and message.
pub open spec fn rejection(status: u16, message: Seq<char>) -> RejectionView {
    RejectionView { status, message }
}

/// An answer: a status code, headers and a body.
#[derive(Debug)]
pub struct Reply {
    pub status: u16,
    pub headers: Vec<(String, String)>,
    pub body: String,
}

/// The values in a [`Reply`].
#[verifier::ext_equal]
pub struct ReplyView {
    pub status: u16,
    pub headers: Seq<(Seq<char>, Seq<char>)>,
    pub body: Seq<char>,
}

/// The names and values of headers.
pub open spec fn headers_in(headers: Seq<(String, String)>) -> Seq<(Seq<char>, Seq<char>)> {
    headers.map_values(|h: (String, String)| (h.0@, h.1@))
}

impl View for Reply {
    type V = ReplyView;

    open spec fn view(&self) -> ReplyView {
        ReplyView { status: self.status, headers: headers_in(self.headers@), body: self.body@ }
    }
}

/// The answer with this status code and body, and without headers.
pub open spec fn plain_reply(status: u16, body: Seq<char>) -> ReplyView {
    ReplyView { status, headers: Seq::empty(), body }
}

impl Reply {
    /// An answer without headers.
    pub fn plain(status: u16, body: String) -> (r: Self)
        ensures
            r@ == plain_reply(status, body@),
    {
        let r = Reply { status, headers: Vec::new(), body };
        assert(r@ =~= plain_reply(status, body@));
        r
    }
}

} // verus!
