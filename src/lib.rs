//! A small todo service: the record types, an in-memory todo table with the
//! semantics of the relational store, the mapping of store outcomes to HTTP
//! replies, and the static description of the five routes.

mod api_doc;
mod handlers;
mod lemmas;
mod models;
mod store;

pub use api_doc::{ApiDoc, Method, RouteDoc, RoutePath, Shape};
pub use handlers::{
    create_reply, create_todo, delete_reply, delete_todo, get_reply, get_todo, get_todos,
    list_reply, update_reply, update_todo, HttpReply, ReplyBody, STATUS_NOT_FOUND, STATUS_OK,
    STATUS_SERVER_ERROR,
};
pub use lemmas::{
    creates, lemma_create_then_get, lemma_delete_missing, lemma_delete_then_get,
    lemma_get_unassigned_not_found, lemma_index_unique, lemma_list_after_creates,
    lemma_update_changes_title_only, lemma_update_missing,
};
pub use models::{StoreError, Todo, TodoInput};
pub use store::{has_id, index_of, lookup, TableModel, TodoTable};
