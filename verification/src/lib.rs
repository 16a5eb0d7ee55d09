//! Queries that find the elements of a document as a user would: by their
//! text, their label, their role. Every query comes as a family: it returns
//! all elements or one, it tolerates finding none or not, and it can be
//! retried until it succeeds.
//!
//! The document is a snapshot of the host's tree (`document`). What a query
//! finds is stated over that snapshot, and proved.
pub mod aria;
pub mod config;
pub mod document;
pub mod dom_element_filter;
pub mod error;
pub mod events;
pub mod get_node_text;
pub mod get_queries_for_element;
pub mod label_helpers;
pub mod matches;
pub mod number;
pub mod pattern;
pub mod pretty_dom;
pub mod pretty_format;
pub mod queries;
pub mod query_helpers;
pub mod role_helpers;
pub mod selector;
pub mod suggestions;
pub mod text;
pub mod types;
pub mod wait_for;

pub use aria_query::{AriaRole, AriaRoleDefinitionKey};
pub use config::configure;
pub use document::{Attribute, Document, Node, NodeId, NodeKind};
pub use error::{QueryError, WaitForError};
pub use get_node_text::get_node_text;
pub use get_queries_for_element::{get_queries_for_element, within, BoundQueries};
pub use matches::{fuzzy_matches, get_default_normalizer, make_normalizer, Normalizer};
pub use pretty_dom::pretty_dom;
pub use queries::{find, find_all, get, get_all, query, query_all, Query, Snapshots};
pub use query_helpers::{
    get_element_error, get_multiple_elements_found_error, get_suggestion_error,
    query_all_by_attribute, query_by_attribute,
};
pub use role_helpers::{
    get_implicit_aria_roles, get_roles, is_inaccessible, is_subtree_inaccessible, pretty_roles,
    GetRolesOptions, PrettyRolesOptions,
};
pub use selector::Selector;
pub use suggestions::get_suggested_query;
pub use types::config::{Config, ConfigFn, ConfigFnOrPartial, GetElementErrorFn, PartialConfig};
pub use types::matches::{
    DefaultNormalizerOptions, Ignore, Matcher, MatcherFunction, MatcherOptions, NormalizerFn,
    NormalizerOptions, SelectorMatcherOptions,
};
pub use types::queries::{ByRoleOptions, ByRoleOptionsCurrent, ByRoleOptionsValue};
pub use types::suggestions::{Method, Suggestion, Variant};
pub use types::wait_for::WaitForOptions;
pub use wait_for::{wait_for, Clock, WaitAction, WaitFor};
