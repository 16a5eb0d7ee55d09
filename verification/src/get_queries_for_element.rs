//! Queries bound to one container.
use vstd::prelude::*;
use aria_query::AriaRole;
use crate::document::{Document, NodeId};
use crate::error::QueryError;
use crate::queries::{
    get, get_all, get_all_post, get_post, query, query_all, query_all_post, query_post, Query,
};
use crate::types::config::Config;
use crate::types::matches::{Matcher, MatcherOptions, SelectorMatcherOptions};
use crate::types::queries::ByRoleOptions;

verus! {

/// A document, a configuration and a container: every query of the family,
/// asked of that container.
pub struct BoundQueries<'a> {
    doc: &'a Document,
    config: &'a Config,
    element: NodeId,
}

/// Binds the queries to `element`.
pub fn get_queries_for_element<'a>(doc: &'a Document, config: &'a Config, element: NodeId) -> (r:
    BoundQueries<'a>)
    requires
        doc.contains(element),
    ensures
        r.document() == doc,
        r.configuration() == config,
        r.container() == element,
{
    BoundQueries { doc, config, element }
}

/// Binds the queries to `element`.
pub fn within<'a>(doc: &'a Document, config: &'a Config, element: NodeId) -> (r: BoundQueries<'a>)
    requires
        doc.contains(element),
    ensures
        r.document() == doc,
        r.configuration() == config,
        r.container() == element,
{
    get_queries_for_element(doc, config, element)
}

impl<'a> BoundQueries<'a> {
    pub closed spec fn document(self) -> &'a Document {
        self.doc
    }

    pub closed spec fn configuration(self) -> &'a Config {
        self.config
    }

    pub closed spec fn container(self) -> NodeId {
        self.element
    }

    #[verifier::type_invariant]
    pub closed spec fn bound(self) -> bool {
        self.doc.contains(self.element)
    }

    pub fn query_all_by_alt_text(&self, alt: &Matcher, options: &MatcherOptions) -> (r: Result<Vec<NodeId>, QueryError>)
        ensures
            query_all_post(
                Query::AltText(alt, options),
                self.document().nodes(),
                *self.configuration(),
                self.container(),
                r,
            ),
    {
        proof {
            use_type_invariant(self);
        }
        query_all(self.doc, self.config, self.element, &Query::AltText(alt, options))
    }

    pub fn query_by_alt_text(&self, alt: &Matcher, options: &MatcherOptions) -> (r: Result<Option<NodeId>, QueryError>)
        ensures
            query_post(
                Query::AltText(alt, options),
                self.document().nodes(),
                *self.configuration(),
                self.container(),
                r,
            ),
    {
        proof {
            use_type_invariant(self);
        }
        query(self.doc, self.config, self.element, &Query::AltText(alt, options))
    }

    pub fn get_all_by_alt_text(&self, alt: &Matcher, options: &MatcherOptions) -> (r: Result<Vec<NodeId>, QueryError>)
        ensures
            get_all_post(
                Query::AltText(alt, options),
                self.document().nodes(),
                *self.configuration(),
                self.container(),
                r,
            ),
    {
        proof {
            use_type_invariant(self);
        }
        get_all(self.doc, self.config, self.element, &Query::AltText(alt, options))
    }

    pub fn get_by_alt_text(&self, alt: &Matcher, options: &MatcherOptions) -> (r: Result<NodeId, QueryError>)
        ensures
            get_post(
                Query::AltText(alt, options),
                self.document().nodes(),
                *self.configuration(),
                self.container(),
                r,
            ),
    {
        proof {
            use_type_invariant(self);
        }
        get(self.doc, self.config, self.element, &Query::AltText(alt, options))
    }

    pub fn query_all_by_display_value(&self, value: &Matcher, options: &MatcherOptions) -> (r: Result<Vec<NodeId>, QueryError>)
        ensures
            query_all_post(
                Query::DisplayValue(value, options),
                self.document().nodes(),
                *self.configuration(),
                self.container(),
                r,
            ),
    {
        proof {
            use_type_invariant(self);
        }
        query_all(self.doc, self.config, self.element, &Query::DisplayValue(value, options))
    }

    pub fn query_by_display_value(&self, value: &Matcher, options: &MatcherOptions) -> (r: Result<Option<NodeId>, QueryError>)
        ensures
            query_post(
                Query::DisplayValue(value, options),
                self.document().nodes(),
                *self.configuration(),
                self.container(),
                r,
            ),
    {
        proof {
            use_type_invariant(self);
        }
        query(self.doc, self.config, self.element, &Query::DisplayValue(value, options))
    }

    pub fn get_all_by_display_value(&self, value: &Matcher, options: &MatcherOptions) -> (r: Result<Vec<NodeId>, QueryError>)
        ensures
            get_all_post(
                Query::DisplayValue(value, options),
                self.document().nodes(),
                *self.configuration(),
                self.container(),
                r,
            ),
    {
        proof {
            use_type_invariant(self);
        }
        get_all(self.doc, self.config, self.element, &Query::DisplayValue(value, options))
    }

    pub fn get_by_display_value(&self, value: &Matcher, options: &MatcherOptions) -> (r: Result<NodeId, QueryError>)
        ensures
            get_post(
                Query::DisplayValue(value, options),
                self.document().nodes(),
                *self.configuration(),
                self.container(),
                r,
            ),
    {
        proof {
            use_type_invariant(self);
        }
        get(self.doc, self.config, self.element, &Query::DisplayValue(value, options))
    }

    pub fn query_all_by_label_text(&self, text: &Matcher, options: &SelectorMatcherOptions) -> (r: Result<Vec<NodeId>, QueryError>)
        ensures
            query_all_post(
                Query::LabelText(text, options),
                self.document().nodes(),
                *self.configuration(),
                self.container(),
                r,
            ),
    {
        proof {
            use_type_invariant(self);
        }
        query_all(self.doc, self.config, self.element, &Query::LabelText(text, options))
    }

    pub fn query_by_label_text(&self, text: &Matcher, options: &SelectorMatcherOptions) -> (r: Result<Option<NodeId>, QueryError>)
        ensures
            query_post(
                Query::LabelText(text, options),
                self.document().nodes(),
                *self.configuration(),
                self.container(),
                r,
            ),
    {
        proof {
            use_type_invariant(self);
        }
        query(self.doc, self.config, self.element, &Query::LabelText(text, options))
    }

    pub fn get_all_by_label_text(&self, text: &Matcher, options: &SelectorMatcherOptions) -> (r: Result<Vec<NodeId>, QueryError>)
        ensures
            get_all_post(
                Query::LabelText(text, options),
                self.document().nodes(),
                *self.configuration(),
                self.container(),
                r,
            ),
    {
        proof {
            use_type_invariant(self);
        }
        get_all(self.doc, self.config, self.element, &Query::LabelText(text, options))
    }

    pub fn get_by_label_text(&self, text: &Matcher, options: &SelectorMatcherOptions) -> (r: Result<NodeId, QueryError>)
        ensures
            get_post(
                Query::LabelText(text, options),
                self.document().nodes(),
                *self.configuration(),
                self.container(),
                r,
            ),
    {
        proof {
            use_type_invariant(self);
        }
        get(self.doc, self.config, self.element, &Query::LabelText(text, options))
    }

    pub fn query_all_by_placeholder_text(&self, text: &Matcher, options: &MatcherOptions) -> (r: Result<Vec<NodeId>, QueryError>)
        ensures
            query_all_post(
                Query::PlaceholderText(text, options),
                self.document().nodes(),
                *self.configuration(),
                self.container(),
                r,
            ),
    {
        proof {
            use_type_invariant(self);
        }
        query_all(self.doc, self.config, self.element, &Query::PlaceholderText(text, options))
    }

    pub fn query_by_placeholder_text(&self, text: &Matcher, options: &MatcherOptions) -> (r: Result<Option<NodeId>, QueryError>)
        ensures
            query_post(
                Query::PlaceholderText(text, options),
                self.document().nodes(),
                *self.configuration(),
                self.container(),
                r,
            ),
    {
        proof {
            use_type_invariant(self);
        }
        query(self.doc, self.config, self.element, &Query::PlaceholderText(text, options))
    }

    pub fn get_all_by_placeholder_text(&self, text: &Matcher, options: &MatcherOptions) -> (r: Result<Vec<NodeId>, QueryError>)
        ensures
            get_all_post(
                Query::PlaceholderText(text, options),
                self.document().nodes(),
                *self.configuration(),
                self.container(),
                r,
            ),
    {
        proof {
            use_type_invariant(self);
        }
        get_all(self.doc, self.config, self.element, &Query::PlaceholderText(text, options))
    }

    pub fn get_by_placeholder_text(&self, text: &Matcher, options: &MatcherOptions) -> (r: Result<NodeId, QueryError>)
        ensures
            get_post(
                Query::PlaceholderText(text, options),
                self.document().nodes(),
                *self.configuration(),
                self.container(),
                r,
            ),
    {
        proof {
            use_type_invariant(self);
        }
        get(self.doc, self.config, self.element, &Query::PlaceholderText(text, options))
    }

    pub fn query_all_by_role(&self, role: AriaRole, options: &ByRoleOptions) -> (r: Result<Vec<NodeId>, QueryError>)
        ensures
            query_all_post(
                Query::Role(role, options),
                self.document().nodes(),
                *self.configuration(),
                self.container(),
                r,
            ),
    {
        proof {
            use_type_invariant(self);
        }
        query_all(self.doc, self.config, self.element, &Query::Role(role, options))
    }

    pub fn query_by_role(&self, role: AriaRole, options: &ByRoleOptions) -> (r: Result<Option<NodeId>, QueryError>)
        ensures
            query_post(
                Query::Role(role, options),
                self.document().nodes(),
                *self.configuration(),
                self.container(),
                r,
            ),
    {
        proof {
            use_type_invariant(self);
        }
        query(self.doc, self.config, self.element, &Query::Role(role, options))
    }

    pub fn get_all_by_role(&self, role: AriaRole, options: &ByRoleOptions) -> (r: Result<Vec<NodeId>, QueryError>)
        ensures
            get_all_post(
                Query::Role(role, options),
                self.document().nodes(),
                *self.configuration(),
                self.container(),
                r,
            ),
    {
        proof {
            use_type_invariant(self);
        }
        get_all(self.doc, self.config, self.element, &Query::Role(role, options))
    }

    pub fn get_by_role(&self, role: AriaRole, options: &ByRoleOptions) -> (r: Result<NodeId, QueryError>)
        ensures
            get_post(
                Query::Role(role, options),
                self.document().nodes(),
                *self.configuration(),
                self.container(),
                r,
            ),
    {
        proof {
            use_type_invariant(self);
        }
        get(self.doc, self.config, self.element, &Query::Role(role, options))
    }

    pub fn query_all_by_test_id(&self, id: &Matcher, options: &MatcherOptions) -> (r: Result<Vec<NodeId>, QueryError>)
        ensures
            query_all_post(
                Query::TestId(id, options),
                self.document().nodes(),
                *self.configuration(),
                self.container(),
                r,
            ),
    {
        proof {
            use_type_invariant(self);
        }
        query_all(self.doc, self.config, self.element, &Query::TestId(id, options))
    }

    pub fn query_by_test_id(&self, id: &Matcher, options: &MatcherOptions) -> (r: Result<Option<NodeId>, QueryError>)
        ensures
            query_post(
                Query::TestId(id, options),
                self.document().nodes(),
                *self.configuration(),
                self.container(),
                r,
            ),
    {
        proof {
            use_type_invariant(self);
        }
        query(self.doc, self.config, self.element, &Query::TestId(id, options))
    }

    pub fn get_all_by_test_id(&self, id: &Matcher, options: &MatcherOptions) -> (r: Result<Vec<NodeId>, QueryError>)
        ensures
            get_all_post(
                Query::TestId(id, options),
                self.document().nodes(),
                *self.configuration(),
                self.container(),
                r,
            ),
    {
        proof {
            use_type_invariant(self);
        }
        get_all(self.doc, self.config, self.element, &Query::TestId(id, options))
    }

    pub fn get_by_test_id(&self, id: &Matcher, options: &MatcherOptions) -> (r: Result<NodeId, QueryError>)
        ensures
            get_post(
                Query::TestId(id, options),
                self.document().nodes(),
                *self.configuration(),
                self.container(),
                r,
            ),
    {
        proof {
            use_type_invariant(self);
        }
        get(self.doc, self.config, self.element, &Query::TestId(id, options))
    }

    pub fn query_all_by_text(&self, text: &Matcher, options: &SelectorMatcherOptions) -> (r: Result<Vec<NodeId>, QueryError>)
        ensures
            query_all_post(
                Query::Text(text, options),
                self.document().nodes(),
                *self.configuration(),
                self.container(),
                r,
            ),
    {
        proof {
            use_type_invariant(self);
        }
        query_all(self.doc, self.config, self.element, &Query::Text(text, options))
    }

    pub fn query_by_text(&self, text: &Matcher, options: &SelectorMatcherOptions) -> (r: Result<Option<NodeId>, QueryError>)
        ensures
            query_post(
                Query::Text(text, options),
                self.document().nodes(),
                *self.configuration(),
                self.container(),
                r,
            ),
    {
        proof {
            use_type_invariant(self);
        }
        query(self.doc, self.config, self.element, &Query::Text(text, options))
    }

    pub fn get_all_by_text(&self, text: &Matcher, options: &SelectorMatcherOptions) -> (r: Result<Vec<NodeId>, QueryError>)
        ensures
            get_all_post(
                Query::Text(text, options),
                self.document().nodes(),
                *self.configuration(),
                self.container(),
                r,
            ),
    {
        proof {
            use_type_invariant(self);
        }
        get_all(self.doc, self.config, self.element, &Query::Text(text, options))
    }

    pub fn get_by_text(&self, text: &Matcher, options: &SelectorMatcherOptions) -> (r: Result<NodeId, QueryError>)
        ensures
            get_post(
                Query::Text(text, options),
                self.document().nodes(),
                *self.configuration(),
                self.container(),
                r,
            ),
    {
        proof {
            use_type_invariant(self);
        }
        get(self.doc, self.config, self.element, &Query::Text(text, options))
    }

    pub fn query_all_by_title(&self, title: &Matcher, options: &MatcherOptions) -> (r: Result<Vec<NodeId>, QueryError>)
        ensures
            query_all_post(
                Query::Title(title, options),
                self.document().nodes(),
                *self.configuration(),
                self.container(),
                r,
            ),
    {
        proof {
            use_type_invariant(self);
        }
        query_all(self.doc, self.config, self.element, &Query::Title(title, options))
    }

    pub fn query_by_title(&self, title: &Matcher, options: &MatcherOptions) -> (r: Result<Option<NodeId>, QueryError>)
        ensures
            query_post(
                Query::Title(title, options),
                self.document().nodes(),
                *self.configuration(),
                self.container(),
                r,
            ),
    {
        proof {
            use_type_invariant(self);
        }
        query(self.doc, self.config, self.element, &Query::Title(title, options))
    }

    pub fn get_all_by_title(&self, title: &Matcher, options: &MatcherOptions) -> (r: Result<Vec<NodeId>, QueryError>)
        ensures
            get_all_post(
                Query::Title(title, options),
                self.document().nodes(),
                *self.configuration(),
                self.container(),
                r,
            ),
    {
        proof {
            use_type_invariant(self);
        }
        get_all(self.doc, self.config, self.element, &Query::Title(title, options))
    }

    pub fn get_by_title(&self, title: &Matcher, options: &MatcherOptions) -> (r: Result<NodeId, QueryError>)
        ensures
            get_post(
                Query::Title(title, options),
                self.document().nodes(),
                *self.configuration(),
                self.container(),
                r,
            ),
    {
        proof {
            use_type_invariant(self);
        }
        get(self.doc, self.config, self.element, &Query::Title(title, options))
    }
}

} // verus!
