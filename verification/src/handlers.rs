//! The three request handlers, as functions from a request to a response
//! value.

use crate::decimal::{parse_i32, parsed_i32};
use crate::directory::{
    first_with_id, get_person_by_id, get_person_list, lemma_directory_ids, people,
};
use crate::json::{pretty_json, render, RenderError};
use crate::person::{display_text, structured_form, structured_forms, structured_list};
use crate::record::DocumentView;
use vstd::prelude::*;

verus! {

/// The status of a response that carries a body.
#[derive(Debug, Clone, Copy, PartialEq, Eq)]
pub enum Status {
    /// 200
    Success,
    /// 404
    NotFound,
    /// 500
    InternalServerError,
}

/// The status code that stands for `status` on the wire.
pub open spec fn status_code(status: Status) -> int {
    match status {
        Status::Success => 200,
        Status::NotFound => 404,
        Status::InternalServerError => 500,
    }
}

impl Status {
    /// The numeric status code.
    pub fn code(&self) -> (code: u16)
        ensures
            code == status_code(*self),
    {
        match self {
            Status::Success => 200,
            Status::NotFound => 404,
            Status::InternalServerError => 500,
        }
    }
}

/// The kind of content that a body holds.
#[derive(Debug, Clone, Copy, PartialEq, Eq)]
pub enum Media {
    /// JSON, for machines to read.
    Json,
    /// Plain text.
    Text,
}

/// A response, before it is put on the wire.
#[derive(Debug, PartialEq, Eq)]
pub enum Response {
    /// A status and a body of the given kind.
    Content { status: Status, media: Media, body: String },
    /// A temporary redirect to `location`.
    Redirect { location: String },
}

/// What a [`Response`] is in contracts.
pub enum ResponseView {
    Content { status: Status, media: Media, body: Seq<char> },
    Redirect { location: Seq<char> },
}

impl View for Response {
    type V = ResponseView;

    open spec fn view(&self) -> ResponseView {
        match self {
            Response::Content { status, media, body } => ResponseView::Content {
                status: *status,
                media: *media,
                body: body@,
            },
            Response::Redirect { location } => ResponseView::Redirect { location: location@ },
        }
    }
}

/// The document that the list handler renders: the structured form of each
/// person of the directory, in the directory's order.
pub open spec fn list_document() -> DocumentView {
    DocumentView::List(structured_forms(people()))
}

/// The response that carries the rendered list: status 200, JSON, and the
/// text as the body.
pub open spec fn list_reply(body: Seq<char>) -> ResponseView {
    ResponseView::Content { status: Status::Success, media: Media::Json, body }
}

/// The response to a request for the path with the trailing slash.
pub open spec fn redirect_reply() -> ResponseView {
    ResponseView::Redirect { location: "/person"@ }
}

/// The response to a lookup, `segment` being the last part of the request's
/// path.
pub open spec fn lookup_reply(segment: Seq<char>) -> ResponseView {
    match parsed_i32(segment) {
        Some(id) => match first_with_id(people(), id as int) {
            Some(person) => ResponseView::Content {
                status: Status::Success,
                media: Media::Text,
                body: display_text(person),
            },
            None => ResponseView::Content {
                status: Status::NotFound,
                media: Media::Text,
                body: "Did not find person with given id."@,
            },
        },
        None => ResponseView::Content {
            status: Status::InternalServerError,
            media: Media::Text,
            body: "Failed to parse person.Id argument."@,
        },
    }
}

/// `out` is what the list handler gives: the response that carries the
/// rendered list, or the error where, and only where, the JSON writer reports
/// one for the list.
pub open spec fn answers_list(out: Result<Response, RenderError>) -> bool {
    &&& out is Ok <==> pretty_json(list_document()) is Some
    &&& out matches Ok(response) ==> pretty_json(list_document()) matches Some(text)
        && response@ == list_reply(text)
}

/// Wraps the outcome of rendering the list: the text becomes the body of a
/// JSON response with status 200, an error is handed on.
pub fn list_response(rendering: Result<String, RenderError>) -> (out: Result<
    Response,
    RenderError,
>)
    ensures
        out is Ok <==> rendering is Ok,
        rendering matches Ok(text) ==> out matches Ok(response) && response@ == list_reply(text@),
{
    match rendering {
        Ok(body) => Ok(Response::Content { status: Status::Success, media: Media::Json, body }),
        Err(e) => Err(e),
    }
}

/// Answers a request for the whole directory: status 200 with the list of
/// all people as indented JSON.
///
/// Fails where, and only where, the JSON writer reports an error for the
/// list; a server has no answer to give then.
pub fn person_endpoint() -> (out: Result<Response, RenderError>)
    ensures
        answers_list(out),
{
    let person_list = get_person_list();
    let doc = structured_list(&person_list);
    list_response(render(&doc))
}

/// Answers a request for the path with the trailing slash: a redirect to
/// `/person`.
pub fn person_redirect() -> (response: Response)
    ensures
        response@ == redirect_reply(),
{
    Response::Redirect { location: "/person".to_owned() }
}

/// Answers a lookup. `path` is the last part of the request's path and is
/// read as a decimal id.
///
/// - Status 500 where `path` is no numeral that fits an `i32`.
/// - Status 404 where the directory holds no person with that id.
/// - Status 200, with the person's display form as the body, otherwise.
pub fn echo(path: String) -> (response: Response)
    ensures
        response@ == lookup_reply(path@),
{
    match parse_i32(path.as_str()) {
        Some(n) => {
            match get_person_by_id(n) {
                Some(x) => Response::Content {
                    status: Status::Success,
                    media: Media::Text,
                    body: x.to_string(),
                },
                None => Response::Content {
                    status: Status::NotFound,
                    media: Media::Text,
                    body: "Did not find person with given id.".to_owned(),
                },
            }
        },
        None => Response::Content {
            status: Status::InternalServerError,
            media: Media::Text,
            body: "Failed to parse person.Id argument.".to_owned(),
        },
    }
}

/// The list handler renders exactly two records: the structured form of the
/// directory's first person, then that of its second.
pub proof fn lemma_list_document_is_the_directory()
    ensures
        people().len() == 2,
        list_document() == DocumentView::List(
            seq![structured_form(people()[0]), structured_form(people()[1])],
        ),
{
    assert(structured_forms(people()) =~= seq![
        structured_form(people()[0]),
        structured_form(people()[1]),
    ]);
}

/// Asking for the list again changes nothing: two outcomes of the list
/// handler are both a response, and then the same response, or both the
/// error.
pub proof fn lemma_list_repeats(
    first: Result<Response, RenderError>,
    second: Result<Response, RenderError>,
)
    requires
        answers_list(first),
        answers_list(second),
    ensures
        first is Ok <==> second is Ok,
        first matches Ok(a) ==> second matches Ok(b) && a@ == b@,
{
}

/// Asking for the redirect again changes nothing: two responses of the
/// redirect handler are the same, and both lead to `/person`.
pub proof fn lemma_redirect_repeats(first: Response, second: Response)
    requires
        first@ == redirect_reply(),
        second@ == redirect_reply(),
    ensures
        first@ == second@,
        first@ == (ResponseView::Redirect { location: "/person"@ }),
{
}

/// Looking the same path up again changes nothing: two responses of the
/// lookup handler to one path are the same.
pub proof fn lemma_lookup_repeats(path: Seq<char>, first: Response, second: Response)
    requires
        first@ == lookup_reply(path),
        second@ == lookup_reply(path),
    ensures
        first@ == second@,
{
}

/// The three outcomes of a lookup, by the path: status 500 where it is no
/// id, status 404 where it is an id other than 1 and 2, and status 200 with
/// the display form of the person that carries the id for 1 and 2.
pub proof fn lemma_lookup_cases(path: Seq<char>)
    ensures
        lookup_reply(path) == match parsed_i32(path) {
            None => ResponseView::Content {
                status: Status::InternalServerError,
                media: Media::Text,
                body: "Failed to parse person.Id argument."@,
            },
            Some(id) => if id == 1 || id == 2 {
                ResponseView::Content {
                    status: Status::Success,
                    media: Media::Text,
                    body: display_text(people()[id - 1]),
                }
            } else {
                ResponseView::Content {
                    status: Status::NotFound,
                    media: Media::Text,
                    body: "Did not find person with given id."@,
                }
            },
        },
{
    match parsed_i32(path) {
        Some(id) => {
            lemma_directory_ids(id as int);
        },
        None => {},
    }
}

} // verus!
