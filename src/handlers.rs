use crate::models::{StoreError, Todo};
use vstd::prelude::*;

verus! {

pub const STATUS_OK: u16 = 200;

pub const STATUS_NOT_FOUND: u16 = 404;

pub const STATUS_SERVER_ERROR: u16 = 500;

/// The body of a reply: one record or a list of them as JSON, or plain text.
#[derive(Debug, PartialEq, Eq)]
pub enum ReplyBody {
    Record(Todo),
    Records(Vec<Todo>),
    Text(&'static str),
}

/// A status code and a body.
#[derive(Debug, PartialEq, Eq)]
pub struct HttpReply {
    pub status: u16,
    pub body: ReplyBody,
}

/// The reply that carries a failure or an absence as a status and a short text.
pub open spec fn text_reply(status: u16, text: &'static str) -> HttpReply {
    HttpReply { status, body: ReplyBody::Text(text) }
}

pub open spec fn create_reply(outcome: Result<Todo, StoreError>) -> HttpReply {
    match outcome {
        Ok(t) => HttpReply { status: 200, body: ReplyBody::Record(t) },
        Err(_) => text_reply(500, "Error saving new todo"),
    }
}

pub open spec fn list_reply(outcome: Result<Vec<Todo>, StoreError>) -> HttpReply {
    match outcome {
        Ok(ts) => HttpReply { status: 200, body: ReplyBody::Records(ts) },
        Err(_) => text_reply(500, "Error loading todos"),
    }
}

pub open spec fn get_reply(outcome: Result<Option<Todo>, StoreError>) -> HttpReply {
    match outcome {
        Ok(Some(t)) => HttpReply { status: 200, body: ReplyBody::Record(t) },
        Ok(None) => text_reply(404, "Todo not found"),
        Err(_) => text_reply(500, "Error loading todo"),
    }
}

pub open spec fn update_reply(outcome: Result<Option<Todo>, StoreError>) -> HttpReply {
    match outcome {
        Ok(Some(t)) => HttpReply { status: 200, body: ReplyBody::Record(t) },
        Ok(None) => text_reply(404, "Todo not found"),
        Err(_) => text_reply(500, "Error updating todo"),
    }
}

pub open spec fn delete_reply(outcome: Result<usize, StoreError>) -> HttpReply {
    match outcome {
        Ok(count) => if count > 0 {
            text_reply(200, "Todo deleted")
        } else {
            text_reply(404, "Todo not found")
        },
        Err(_) => text_reply(500, "Error deleting todo"),
    }
}

/// `POST /todos`: the created record, or a server error.
pub fn create_todo(outcome: Result<Todo, StoreError>) -> (r: HttpReply)
    ensures
        r == create_reply(outcome),
{
    match outcome {
        Ok(todo) => HttpReply { status: STATUS_OK, body: ReplyBody::Record(todo) },
        Err(_) => HttpReply {
            status: STATUS_SERVER_ERROR,
            body: ReplyBody::Text("Error saving new todo"),
        },
    }
}

/// `GET /todos`: every record, or a server error.
pub fn get_todos(outcome: Result<Vec<Todo>, StoreError>) -> (r: HttpReply)
    ensures
        r == list_reply(outcome),
{
    match outcome {
        Ok(todos) => HttpReply { status: STATUS_OK, body: ReplyBody::Records(todos) },
        Err(_) => HttpReply {
            status: STATUS_SERVER_ERROR,
            body: ReplyBody::Text("Error loading todos"),
        },
    }
}

/// `GET /todos/{id}`: the record, not found, or a server error.
pub fn get_todo(outcome: Result<Option<Todo>, StoreError>) -> (r: HttpReply)
    ensures
        r == get_reply(outcome),
{
    match outcome {
        Ok(Some(todo)) => HttpReply { status: STATUS_OK, body: ReplyBody::Record(todo) },
        Ok(None) => HttpReply { status: STATUS_NOT_FOUND, body: ReplyBody::Text("Todo not found") },
        Err(_) => HttpReply {
            status: STATUS_SERVER_ERROR,
            body: ReplyBody::Text("Error loading todo"),
        },
    }
}

/// `PUT /todos/{id}`: the updated record, not found, or a server error.
pub fn update_todo(outcome: Result<Option<Todo>, StoreError>) -> (r: HttpReply)
    ensures
        r == update_reply(outcome),
{
    match outcome {
        Ok(Some(todo)) => HttpReply { status: STATUS_OK, body: ReplyBody::Record(todo) },
        Ok(None) => HttpReply { status: STATUS_NOT_FOUND, body: ReplyBody::Text("Todo not found") },
        Err(_) => HttpReply {
            status: STATUS_SERVER_ERROR,
            body: ReplyBody::Text("Error updating todo"),
        },
    }
}

/// `DELETE /todos/{id}`: a confirmation when a row went, not found when none
/// did, or a server error.
pub fn delete_todo(outcome: Result<usize, StoreError>) -> (r: HttpReply)
    ensures
        r == delete_reply(outcome),
{
    match outcome {
        Ok(count) => if count > 0 {
            HttpReply { status: STATUS_OK, body: ReplyBody::Text("Todo deleted") }
        } else {
            HttpReply { status: STATUS_NOT_FOUND, body: ReplyBody::Text("Todo not found") }
        },
        Err(_) => HttpReply {
            status: STATUS_SERVER_ERROR,
            body: ReplyBody::Text("Error deleting todo"),
        },
    }
}

} // verus!
