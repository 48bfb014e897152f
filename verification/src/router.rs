//! The routes of the service and the response that each request gets.

use vstd::prelude::*;
use crate::clock::{TimeMessage, get_time, is_digit, is_time_pattern, read_from_clock};
use crate::database::{DbError, DbMessage, get_db};
use crate::message::{Message, StatusReply, not_found, not_found_reply};
use crate::store::{
    MessageStore, create_reply, lookup, store_after_create, store_after_update, update_reply,
};

verus! {

/// The method of a request.
#[derive(Clone, Copy, Debug, PartialEq, Eq)]
pub enum Method {
    Get,
    Post,
    Put,
    /// Any method that no route is defined for.
    Other,
}

/// A handler together with the id taken from the path, where it takes one.
#[derive(Clone, Copy, Debug, PartialEq, Eq)]
pub enum Route {
    CreateMessage(usize),
    UpdateMessage(usize),
    GetMessage(usize),
    Time,
    Db,
}

/// A request: its method, the segments of its path, whether it speaks JSON
/// (a write whose body is declared as JSON, a read that accepts JSON), and
/// the message of its body, which only the routes that write read.
pub struct Request {
    pub method: Method,
    pub segments: Vec<String>,
    pub json: bool,
    pub message: Message,
}

/// What a response carries.
#[derive(Clone, Debug, PartialEq, Eq)]
pub enum Body {
    Empty,
    Status(StatusReply),
    Message(Message),
    Time(TimeMessage),
    Entry(DbMessage),
}

/// A response: its status code and its body.
#[derive(Clone, Debug, PartialEq, Eq)]
pub struct Response {
    pub status: u16,
    pub body: Body,
}

/// The status code of success.
pub const STATUS_OK: u16 = 200;

/// The status code of absence.
pub const STATUS_NOT_FOUND: u16 = 404;

/// The number that a decimal digit stands for.
pub open spec fn digit_value(c: char) -> nat {
    (c as u32 - '0' as u32) as nat
}

/// The number that a text of decimal digits stands for.
pub open spec fn digits_value(digits: Seq<char>) -> nat
    decreases digits.len(),
{
    if digits.len() == 0 {
        0
    } else {
        digits_value(digits.drop_last()) * 10 + digit_value(digits.last())
    }
}

/// The id that a path segment stands for: decimal digits, at least one, with
/// or without a plus sign in front, whose number fits the id type. Any other
/// segment stands for none.
pub open spec fn id_of(segment: Seq<char>) -> Option<usize> {
    let digits = if segment.len() > 0 && segment[0] == '+' {
        segment.subrange(1, segment.len() as int)
    } else {
        segment
    };
    if digits.len() > 0 && (forall|i: int| 0 <= i < digits.len() ==> is_digit(#[trigger] digits[i]))
        && digits_value(digits) <= usize::MAX {
        Some(digits_value(digits) as usize)
    } else {
        None
    }
}

/// The route of a request, if it has one: `message` and an id under the
/// three methods, for requests that speak JSON; `time` and `db` under `Get`,
/// for any request.
pub open spec fn route_of(method: Method, segments: Seq<String>, json: bool) -> Option<Route> {
    if segments.len() == 2 && segments[0]@ == "message"@ {
        if json {
            match (id_of(segments[1]@), method) {
                (Some(id), Method::Post) => Some(Route::CreateMessage(id)),
                (Some(id), Method::Put) => Some(Route::UpdateMessage(id)),
                (Some(id), Method::Get) => Some(Route::GetMessage(id)),
                _ => None,
            }
        } else {
            None
        }
    } else if segments.len() == 1 && method == Method::Get {
        if segments[0]@ == "time"@ {
            Some(Route::Time)
        } else if segments[0]@ == "db"@ {
            Some(Route::Db)
        } else {
            None
        }
    } else {
        None
    }
}

/// Reads a path segment as an id.
///
/// Trusted: calls `str::parse::<usize>`. Claimed, as std documents the
/// parsing of integers: an optional plus sign followed by decimal digits
/// only, at least one, gives their number where it fits the type; anything
/// else is an error, given back here as `None`.
#[verifier::external_body]
fn parse_id(segment: &str) -> (id: Option<usize>)
    ensures
        id == id_of(segment@),
{
    match segment.parse::<usize>() {
        Ok(id) => Some(id),
        Err(_) => None,
    }
}

/// Whether a segment is the given word.
fn is_word(segment: &String, word: &str) -> (b: bool)
    ensures
        b == (segment@ == word@),
{
    let owned = word.to_owned();
    *segment == owned
}

/// Finds the route of a request.
pub fn route(method: Method, segments: &Vec<String>, json: bool) -> (r: Option<Route>)
    ensures
        r == route_of(method, segments@, json),
{
    if segments.len() == 2 && is_word(&segments[0], "message") {
        if !json {
            return None;
        }
        match (parse_id(segments[1].as_str()), method) {
            (Some(id), Method::Post) => Some(Route::CreateMessage(id)),
            (Some(id), Method::Put) => Some(Route::UpdateMessage(id)),
            (Some(id), Method::Get) => Some(Route::GetMessage(id)),
            _ => None,
        }
    } else if segments.len() == 1 {
        match method {
            Method::Get => {
                if is_word(&segments[0], "time") {
                    Some(Route::Time)
                } else if is_word(&segments[0], "db") {
                    Some(Route::Db)
                } else {
                    None
                }
            },
            _ => None,
        }
    } else {
        None
    }
}

/// The response to a request that has no route.
pub open spec fn unmatched_response(response: Response) -> bool {
    &&& response.status == STATUS_NOT_FOUND
    &&& response.body matches Body::Status(reply)
    &&& reply@ == not_found_reply()
}

/// The response that carries no body and signals absence.
pub open spec fn absent_response(response: Response) -> bool {
    response.status == STATUS_NOT_FOUND && response.body == Body::Empty
}

/// The response to a request that matches no route.
pub fn unmatched() -> (response: Response)
    ensures
        unmatched_response(response),
{
    Response { status: STATUS_NOT_FOUND, body: Body::Status(not_found()) }
}

/// The response to a create request: success as a status, the reply as the
/// body, conflict or not.
pub fn create_response(store: &mut MessageStore, id: usize, message: Message) -> (response: Response)
    ensures
        final(store)@ == store_after_create(old(store)@, id, message@.contents),
        response.status == STATUS_OK,
        response.body matches Body::Status(reply) && reply@ == create_reply(old(store)@, id),
{
    Response { status: STATUS_OK, body: Body::Status(store.create(id, message)) }
}

/// The response to an update request: the success body, or absence where
/// nothing stands under the id.
pub fn update_response(store: &mut MessageStore, id: usize, message: Message) -> (response:
    Response)
    ensures
        final(store)@ == store_after_update(old(store)@, id, message@.contents),
        match update_reply(old(store)@, id) {
            Some(expected) => response.status == STATUS_OK && (response.body matches Body::Status(
                reply,
            ) && reply@ == expected),
            None => absent_response(response),
        },
{
    match store.update(id, message) {
        Some(reply) => Response { status: STATUS_OK, body: Body::Status(reply) },
        None => Response { status: STATUS_NOT_FOUND, body: Body::Empty },
    }
}

/// The response to a read request: the message, or absence where nothing
/// stands under the id.
pub fn get_response(store: &MessageStore, id: usize) -> (response: Response)
    ensures
        match lookup(store@, id) {
            Some(expected) => response.status == STATUS_OK && (response.body matches Body::Message(
                m,
            ) && m@ == expected),
            None => absent_response(response),
        },
{
    match store.get(id) {
        Some(message) => Response { status: STATUS_OK, body: Body::Message(message) },
        None => Response { status: STATUS_NOT_FOUND, body: Body::Empty },
    }
}

/// The response of the time handler: success, with the time message of some
/// moment that exists; its hour has the shape `HH:MM:SS`, and its date the
/// shape `YYYY-MM-DD` where the year of that moment lies between 0 and 9999.
pub open spec fn time_answer(response: Response) -> bool {
    &&& response.status == STATUS_OK
    &&& response.body matches Body::Time(t)
    &&& is_time_pattern(t@.hour)
    &&& read_from_clock(t@)
}

/// The outcome of the database handler: success with an entry, or the query
/// error.
pub open spec fn db_answer(outcome: Result<Response, DbError>) -> bool {
    match outcome {
        Ok(response) => response.status == STATUS_OK && response.body is Entry,
        Err(e) => e == DbError::Query,
    }
}

/// The response to a request for the time.
pub fn time_response() -> (response: Response)
    ensures
        time_answer(response),
{
    Response { status: STATUS_OK, body: Body::Time(get_time()) }
}

/// The response to a request for the database entry. A failed query is an
/// error, which the service treats as fatal.
pub fn db_response(conn: &rusqlite::Connection) -> (outcome: Result<Response, DbError>)
    ensures
        db_answer(outcome),
{
    match get_db(conn) {
        Ok(entry) => Ok(Response { status: STATUS_OK, body: Body::Entry(entry) }),
        Err(e) => Err(e),
    }
}

/// How a response and the store after a request relate to the request and
/// the store before it, route by route.
pub open spec fn serves(
    before: Map<usize, Seq<char>>,
    request: Request,
    after: Map<usize, Seq<char>>,
    outcome: Result<Response, DbError>,
) -> bool {
    match route_of(request.method, request.segments@, request.json) {
        None => after == before && (outcome matches Ok(response) && unmatched_response(response)),
        Some(Route::CreateMessage(id)) => {
            &&& after == store_after_create(before, id, request.message@.contents)
            &&& outcome matches Ok(response)
            &&& response.status == STATUS_OK
            &&& response.body matches Body::Status(reply)
            &&& reply@ == create_reply(before, id)
        },
        Some(Route::UpdateMessage(id)) => {
            &&& after == store_after_update(before, id, request.message@.contents)
            &&& outcome matches Ok(response)
            &&& match update_reply(before, id) {
                Some(expected) => response.status == STATUS_OK && (
                response.body matches Body::Status(reply) && reply@ == expected),
                None => absent_response(response),
            }
        },
        Some(Route::GetMessage(id)) => {
            &&& after == before
            &&& outcome matches Ok(response)
            &&& match lookup(before, id) {
                Some(expected) => response.status == STATUS_OK && (
                response.body matches Body::Message(m) && m@ == expected),
                None => absent_response(response),
            }
        },
        Some(Route::Time) => {
            &&& after == before
            &&& outcome matches Ok(response)
            &&& time_answer(response)
        },
        Some(Route::Db) => {
            &&& after == before
            &&& db_answer(outcome)
        },
    }
}

/// Answers a request for a caller that holds both resources: finds its
/// route, runs the handler on the resource that the route names, and returns
/// the response. Only a failed query of the database is an error. A caller
/// that guards each resource by a lock of its own calls `route` first and
/// then the handler of the route, under that resource's lock alone.
pub fn serve(store: &mut MessageStore, conn: &rusqlite::Connection, request: Request) -> (outcome:
    Result<Response, DbError>)
    ensures
        serves(old(store)@, request, final(store)@, outcome),
{
    match route(request.method, &request.segments, request.json) {
        None => Ok(unmatched()),
        Some(Route::CreateMessage(id)) => Ok(create_response(store, id, request.message)),
        Some(Route::UpdateMessage(id)) => Ok(update_response(store, id, request.message)),
        Some(Route::GetMessage(id)) => Ok(get_response(store, id)),
        Some(Route::Time) => Ok(time_response()),
        Some(Route::Db) => db_response(conn),
    }
}

/// A request that matches no route leaves the store as it was and gets the
/// not-found body with the not-found status.
pub proof fn lemma_unmatched_request_not_found(
    before: Map<usize, Seq<char>>,
    request: Request,
    after: Map<usize, Seq<char>>,
    outcome: Result<Response, DbError>,
)
    requires
        serves(before, request, after, outcome),
        route_of(request.method, request.segments@, request.json) is None,
    ensures
        after == before,
        outcome matches Ok(response) && response.status == 404 && (
        response.body matches Body::Status(reply) && reply@ == not_found_reply()),
{
}

} // verus!
