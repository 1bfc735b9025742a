//! The replies that the library itself decides: the page, and not-found.
use vstd::prelude::*;

verus! {

pub const STATUS_OK: u16 = 200;

pub const STATUS_NOT_FOUND: u16 = 404;

pub const STATUS_INTERNAL_ERROR: u16 = 500;

/// The media type of a reply's body.
#[derive(Clone, Copy, Debug, PartialEq, Eq, Structural)]
pub enum ContentKind {
    /// `text/html; charset=utf-8`
    Html,
    /// `text/plain; charset=utf-8`
    PlainText,
    /// No body, and no content type.
    Empty,
}

/// A reply: status code, media type and body.
#[derive(Clone, Debug)]
pub struct Reply {
    pub status: u16,
    pub content: ContentKind,
    pub body: String,
}

pub ghost struct ReplyView {
    pub status: u16,
    pub content: ContentKind,
    pub body: Seq<char>,
}

impl View for Reply {
    type V = ReplyView;

    open spec fn view(&self) -> ReplyView {
        ReplyView { status: self.status, content: self.content, body: self.body@ }
    }
}

/// What the body of a failed render starts with; the failure's description
/// follows it.
pub open spec fn render_failure_prefix() -> Seq<char> {
    "Failed to render template. Error: "@
}

/// The reply that carries a rendered page.
pub open spec fn page_ok(html: Seq<char>) -> ReplyView {
    ReplyView { status: STATUS_OK, content: ContentKind::Html, body: html }
}

/// The reply to a failed render, with the failure's description.
pub open spec fn page_failed(err: Seq<char>) -> ReplyView {
    ReplyView {
        status: STATUS_INTERNAL_ERROR,
        content: ContentKind::PlainText,
        body: render_failure_prefix() + err,
    }
}

/// The reply to a request that no handler takes.
pub open spec fn not_found() -> ReplyView {
    ReplyView { status: STATUS_NOT_FOUND, content: ContentKind::Empty, body: Seq::empty() }
}

/// The reply to a request for the page, from the outcome of rendering it:
/// the HTML with status 200, or status 500 with the description of the
/// failure.
pub fn page_reply(rendered: Result<String, String>) -> (r: Reply)
    ensures
        match rendered {
            Ok(html) => r@ == page_ok(html@),
            Err(err) => r@ == page_failed(err@),
        },
{
    match rendered {
        Ok(html) => Reply { status: STATUS_OK, content: ContentKind::Html, body: html },
        Err(err) => {
            let mut body = String::from_str("Failed to render template. Error: ");
            body.append(err.as_str());
            Reply { status: STATUS_INTERNAL_ERROR, content: ContentKind::PlainText, body }
        },
    }
}

/// The reply to a request that no handler takes.
pub fn not_found_reply() -> (r: Reply)
    ensures
        r@ == not_found(),
{
    let body = String::new();
    proof {
        assert(body@ =~= Seq::<char>::empty());
    }
    Reply { status: STATUS_NOT_FOUND, content: ContentKind::Empty, body }
}

} // verus!
