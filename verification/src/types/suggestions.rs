//! A better query, as it is proposed to the caller.
use vstd::prelude::*;
use vstd::string::StringExecFns;
use crate::text::{extend_str, string_of};
use crate::types::matches::{Matcher, MatcherOptions};

verus! {

/// The six strengths in which every query comes.
#[derive(Clone, Copy, Debug, PartialEq, Eq, Structural)]
pub enum Variant {
    Find,
    FindAll,
    Get,
    GetAll,
    Query,
    QueryAll,
}

impl Variant {
    pub open spec fn name(self) -> Seq<char> {
        match self {
            Variant::Find => "find"@,
            Variant::FindAll => "find_all"@,
            Variant::Get => "get"@,
            Variant::GetAll => "get_all"@,
            Variant::Query => "query"@,
            Variant::QueryAll => "query_all"@,
        }
    }

    pub fn to_string(&self) -> (s: String)
        ensures
            s@ == self.name(),
    {
        String::from_str(
            match self {
                Variant::Find => "find",
                Variant::FindAll => "find_all",
                Variant::Get => "get",
                Variant::GetAll => "get_all",
                Variant::Query => "query",
                Variant::QueryAll => "query_all",
            },
        )
    }
}

/// What a query goes by.
#[derive(Clone, Copy, Debug, PartialEq, Eq, Structural)]
pub enum Method {
    AltText,
    DisplayValue,
    LabelText,
    PlaceholderText,
    Role,
    TestId,
    Text,
    Title,
}

impl Method {
    pub open spec fn name(self) -> Seq<char> {
        match self {
            Method::AltText => "alt_text"@,
            Method::DisplayValue => "display_value"@,
            Method::LabelText => "label_text"@,
            Method::PlaceholderText => "placeholder_text"@,
            Method::Role => "role"@,
            Method::TestId => "test_id"@,
            Method::Text => "text"@,
            Method::Title => "title"@,
        }
    }

    pub fn to_string(&self) -> (s: String)
        ensures
            s@ == self.name(),
    {
        String::from_str(
            match self {
                Method::AltText => "alt_text",
                Method::DisplayValue => "display_value",
                Method::LabelText => "label_text",
                Method::PlaceholderText => "placeholder_text",
                Method::Role => "role",
                Method::TestId => "test_id",
                Method::Text => "text",
                Method::Title => "title",
            },
        )
    }
}

/// A query that finds an element better than the one that was made.
pub struct Suggestion {
    pub query_name: Method,
    /// The name of the function to call, such as `get_by_alt_text`.
    pub query_method: String,
    pub query_matcher: Matcher,
    pub query_options: MatcherOptions,
    pub variant: Variant,
    pub warning: Option<String>,
}

impl Suggestion {
    /// The matcher as the call shows it: a string between two `'`.
    pub open spec fn shown_matcher(self) -> Seq<char> {
        match self.query_matcher {
            Matcher::String(text) => "'"@ + text@ + "'"@,
            matcher => matcher.shown(),
        }
    }

    /// The call that is proposed: the function and its matcher.
    pub open spec fn call(self) -> Seq<char> {
        self.query_method@ + "("@ + self.shown_matcher() + ")"@
    }

    /// The call that is proposed.
    pub fn to_string(&self) -> (s: String)
        ensures
            s@ == self.call(),
    {
        let mut out: Vec<char> = Vec::new();
        extend_str(&mut out, self.query_method.as_str());
        extend_str(&mut out, "(");
        match &self.query_matcher {
            Matcher::String(text) => {
                extend_str(&mut out, "'");
                extend_str(&mut out, text.as_str());
                extend_str(&mut out, "'");
                assert(out@ == self.query_method@ + "("@ + ("'"@ + text@ + "'"@));
            },
            matcher => {
                extend_str(&mut out, matcher.to_string().as_str());
            },
        }
        extend_str(&mut out, ")");
        string_of(&out)
    }
}

} // verus!
