//! The queries, and the family that each of them comes in: all elements or
//! one, tolerant of finding none or not.
pub mod alt_text;
pub mod display_value;
pub mod label_text;
pub mod placeholder_text;
pub mod role;
pub mod test_id;
pub mod text;
pub mod title;

use vstd::prelude::*;
use aria_query::AriaRole;
use crate::document::{Document, Node, NodeId, NodeKind};
use crate::error::{found_view, one_view, QueryError, QueryErrorView};
use crate::pretty_dom::pretty_dom_text;
use crate::queries::label_text::all_elements;
use crate::query_helpers::{
    attribute_found, element_error, element_error_text, get_element_error,
    get_multiple_elements_found_error, get_suggestion_error, multiple_hint, suggestion_prefix,
};
use crate::suggestions::{get_suggested_query, query_method, suggested_alt};
use crate::text::{extend_str, join, join_chars, chars_of, string_of, views};
use crate::types::config::Config;
use crate::types::matches::{Matcher, MatcherOptions, SelectorMatcherOptions};
use crate::types::queries::ByRoleOptions;
use crate::types::suggestions::{Method, Variant};
use crate::types::wait_for::WaitForOptions;
use crate::error::WaitForError;
use crate::wait_for::{
    is_retried, on_query_poll, saturating_sum, time_of, waited_out, Clock, WaitAction, WaitFor,
};
use vstd::string::StringExecFns;

verus! {

/// One query: what is looked for, and with which options.
pub enum Query<'a> {
    AltText(&'a Matcher, &'a MatcherOptions),
    DisplayValue(&'a Matcher, &'a MatcherOptions),
    LabelText(&'a Matcher, &'a SelectorMatcherOptions),
    PlaceholderText(&'a Matcher, &'a MatcherOptions),
    Role(AriaRole, &'a ByRoleOptions),
    TestId(&'a Matcher, &'a MatcherOptions),
    Text(&'a Matcher, &'a SelectorMatcherOptions),
    Title(&'a Matcher, &'a MatcherOptions),
}

impl<'a> Query<'a> {
    /// What the query goes by.
    pub open spec fn method_of(self) -> Method {
        match self {
            Query::AltText(..) => Method::AltText,
            Query::DisplayValue(..) => Method::DisplayValue,
            Query::LabelText(..) => Method::LabelText,
            Query::PlaceholderText(..) => Method::PlaceholderText,
            Query::Role(..) => Method::Role,
            Query::TestId(..) => Method::TestId,
            Query::Text(..) => Method::Text,
            Query::Title(..) => Method::Title,
        }
    }

    /// What the query finds below `container`, or the error that it fails
    /// with.
    pub open spec fn found(self, nodes: Seq<Node>, config: Config, container: NodeId) -> Result<
        Seq<NodeId>,
        QueryErrorView,
    > {
        match self {
            Query::AltText(text, options) => attribute_found(
                nodes,
                "alt"@,
                container,
                *text,
                *options,
                true,
            ),
            Query::DisplayValue(value, options) => display_value::display_value_found(
                nodes,
                container,
                *value,
                *options,
            ),
            Query::LabelText(text, options) => label_text::label_text_found(
                nodes,
                container,
                *text,
                *options,
            ),
            Query::PlaceholderText(text, options) => attribute_found(
                nodes,
                "placeholder"@,
                container,
                *text,
                *options,
                false,
            ),
            Query::Role(role, options) => role::role_found(
                nodes,
                config.default_hidden,
                container,
                role,
                *options,
            ),
            Query::TestId(id, options) => attribute_found(
                nodes,
                config.test_id_attribute@,
                container,
                *id,
                *options,
                false,
            ),
            Query::Text(text, options) => text::text_found(
                nodes,
                config.default_ignore@,
                container,
                *text,
                *options,
            ),
            Query::Title(text, options) => title::title_found(nodes, container, *text, *options),
        }
    }

    /// The message for more than one element found.
    pub open spec fn multiple_message(self, config: Config) -> Seq<char> {
        match self {
            Query::AltText(text, _) => "Found multiple elements with the alt text: "@
                + text.shown(),
            Query::DisplayValue(value, _) => "Found multiple elements with the display value: "@
                + value.shown(),
            Query::LabelText(text, _) => "Found multiple elements with the label text: "@
                + text.shown(),
            Query::PlaceholderText(text, _) => "Found multiple elements with the placeholder text: "@
                + text.shown(),
            Query::Role(role, options) => role::multiple_roles(role, *options),
            Query::TestId(id, _) => "Found multiple elements by: "@ + test_id::shown_test_id(
                config.test_id_attribute@,
                *id,
            ),
            Query::Text(text, _) => "Found multiple elements with the text: "@ + text.shown(),
            Query::Title(text, _) => "Found multiple elements with the title: "@ + text.shown(),
        }
    }

    /// The message for no element found.
    pub open spec fn missing_message(self, config: Config) -> Result<Seq<char>, QueryErrorView> {
        match self {
            Query::AltText(text, _) => Ok(
                "Unable to find an element with the alt text: "@ + text.shown(),
            ),
            Query::DisplayValue(value, _) => Ok(
                "Unable to find an element with the display value: "@ + value.shown(),
            ),
            Query::LabelText(text, _) => Ok(
                "Unable to find a label with the text of: "@ + text.shown(),
            ),
            Query::PlaceholderText(text, _) => Ok(
                "Unable to find an element with the placeholder text: "@ + text.shown(),
            ),
            Query::Role(role, options) => Ok(
                role::missing_role(role, options.hidden.unwrap_or(config.default_hidden)),
            ),
            Query::TestId(id, _) => Ok(
                "Unable to find an element by: "@ + test_id::shown_test_id(
                    config.test_id_attribute@,
                    *id,
                ),
            ),
            Query::Text(text, options) => text::missing_message(*text, *options),
            Query::Title(text, _) => Ok(
                "Unable to find an element with the title: "@ + text.shown(),
            ),
        }
    }

    /// What the query goes by.
    pub fn method(&self) -> (method: Method)
        ensures
            method == self.method_of(),
    {
        match self {
            Query::AltText(..) => Method::AltText,
            Query::DisplayValue(..) => Method::DisplayValue,
            Query::LabelText(..) => Method::LabelText,
            Query::PlaceholderText(..) => Method::PlaceholderText,
            Query::Role(..) => Method::Role,
            Query::TestId(..) => Method::TestId,
            Query::Text(..) => Method::Text,
            Query::Title(..) => Method::Title,
        }
    }

    /// Finds all elements that the query asks for.
    pub fn find_all(&self, doc: &Document, config: &Config, container: NodeId) -> (r: Result<
        Vec<NodeId>,
        QueryError,
    >)
        requires
            doc.contains(container),
        ensures
            found_view(r) == self.found(doc.nodes(), *config, container),
            r matches Ok(found) ==> all_elements(doc.nodes(), found@),
    {
        match self {
            Query::AltText(text, options) => alt_text::_query_all_by_alt_text(
                doc,
                container,
                text,
                options,
            ),
            Query::DisplayValue(value, options) => display_value::_query_all_by_display_value(
                doc,
                container,
                value,
                options,
            ),
            Query::LabelText(text, options) => label_text::_query_all_by_label_text(
                doc,
                container,
                text,
                options,
            ),
            Query::PlaceholderText(text, options) => placeholder_text::_query_all_by_placeholder_text(
                doc,
                container,
                text,
                options,
            ),
            Query::Role(role, options) => role::_query_all_by_role(
                doc,
                config,
                container,
                *role,
                options,
            ),
            Query::TestId(id, options) => test_id::_query_all_by_test_id(
                doc,
                config,
                container,
                id,
                options,
            ),
            Query::Text(text, options) => text::_query_all_by_text(
                doc,
                config,
                container,
                text,
                options,
            ),
            Query::Title(text, options) => title::_query_all_by_title(doc, container, text, options),
        }
    }

    /// The message for more than one element found.
    pub fn multiple_error(&self, config: &Config) -> (r: String)
        ensures
            r@ == self.multiple_message(*config),
    {
        match self {
            Query::AltText(text, _) => alt_text::get_multiple_error(text),
            Query::DisplayValue(value, _) => display_value::get_multiple_error(value),
            Query::LabelText(text, _) => label_text::get_multiple_error(text),
            Query::PlaceholderText(text, _) => placeholder_text::get_multiple_error(text),
            Query::Role(role, options) => role::get_multiple_error(*role, options),
            Query::TestId(id, _) => test_id::get_multiple_error(config, id),
            Query::Text(text, _) => text::get_multiple_error(text),
            Query::Title(text, _) => title::get_multiple_error(text),
        }
    }

    /// The message for no element found.
    pub fn missing_error(&self, config: &Config) -> (r: Result<String, QueryError>)
        ensures
            match r {
                Ok(said) => self.missing_message(*config) == Ok::<Seq<char>, QueryErrorView>(
                    said@,
                ),
                Err(error) => self.missing_message(*config) == Err::<Seq<char>, QueryErrorView>(
                    error@,
                ),
            },
    {
        match self {
            Query::AltText(text, _) => Ok(alt_text::get_missing_error(text)),
            Query::DisplayValue(value, _) => Ok(display_value::get_missing_error(value)),
            Query::LabelText(text, _) => Ok(label_text::get_missing_error(text)),
            Query::PlaceholderText(text, _) => Ok(placeholder_text::get_missing_error(text)),
            Query::Role(role, options) => Ok(role::get_missing_error(config, *role, options)),
            Query::TestId(id, _) => Ok(test_id::get_missing_error(config, id)),
            Query::Text(text, options) => text::get_missing_error(text, options),
            Query::Title(text, _) => Ok(title::get_missing_error(text)),
        }
    }
}

// ---------------------------------------------------------------------------
// One element of those found
// ---------------------------------------------------------------------------
/// Each element found, as an element error without a message shows it.
pub open spec fn shown_elements(nodes: Seq<Node>, config: Config, found: Seq<NodeId>) -> Seq<
    Seq<char>,
> {
    found.map_values(|element: NodeId| element_error(nodes, config, None, element).message())
}

/// The message for several elements found: the query's own message, and then
/// each of the elements.
pub open spec fn multiple_text(
    nodes: Seq<Node>,
    config: Config,
    message: Seq<char>,
    found: Seq<NodeId>,
) -> Seq<char> {
    message + "\n\nHere are the matching elements:\n\n"@ + join(
        shown_elements(nodes, config, found),
        "\n\n"@,
    )
}

/// The one element of those found: none where none was found, and an error
/// where several were.
pub open spec fn single(
    nodes: Seq<Node>,
    config: Config,
    container: NodeId,
    found: Seq<NodeId>,
    multiple_message: Seq<char>,
) -> Result<Option<NodeId>, QueryErrorView> {
    if found.len() > 1 {
        Err(
            element_error(
                nodes,
                config,
                Some(multiple_text(nodes, config, multiple_message, found) + multiple_hint()),
                container,
            ),
        )
    } else if found.len() == 1 {
        Ok(Some(found[0]))
    } else {
        Ok(None)
    }
}

/// Takes the one element of those found. Several are an error, which lists
/// them.
pub fn make_single_query(
    found: Vec<NodeId>,
    query: &Query,
    doc: &Document,
    config: &Config,
    container: NodeId,
) -> (r: Result<Option<NodeId>, QueryError>)
    ensures
        one_view(r) == single(
            doc.nodes(),
            *config,
            container,
            found@,
            query.multiple_message(*config),
        ),
{
    if found.len() > 1 {
        let ghost wanted = shown_elements(doc.nodes(), *config, found@);
        let mut shown: Vec<Vec<char>> = Vec::new();
        let mut i: usize = 0;
        while i < found.len()
            invariant
                i <= found.len(),
                wanted == shown_elements(doc.nodes(), *config, found@),
                views(shown@) == wanted.take(i as int),
            decreases found.len() - i,
        {
            let error = get_element_error(None, doc, config, found[i]);
            let ghost before = shown@;
            shown.push(chars_of(error.to_string().as_str()));
            proof {
                assert(views(shown@) == views(before).push(wanted[i as int]));
                assert(wanted.take(i + 1) == wanted.take(i as int).push(wanted[i as int]));
            }
            i += 1;
        }
        assert(wanted.take(found.len() as int) == wanted);
        let separator = chars_of("\n\n");
        let listed = join_chars(&shown, &separator);
        let mut message: Vec<char> = Vec::new();
        extend_str(&mut message, query.multiple_error(config).as_str());
        extend_str(&mut message, "\n\nHere are the matching elements:\n\n");
        crate::text::extend_chars(&mut message, &listed);
        Err(get_multiple_elements_found_error(string_of(&message), doc, config, container))
    } else if found.len() == 1 {
        Ok(Some(found[0]))
    } else {
        Ok(None)
    }
}

/// All the elements found, where there are any: none is an error, which holds
/// the query's message for that.
pub open spec fn at_least_one(
    nodes: Seq<Node>,
    config: Config,
    container: NodeId,
    found: Seq<NodeId>,
    missing_message: Result<Seq<char>, QueryErrorView>,
) -> Result<Seq<NodeId>, QueryErrorView> {
    if found.len() == 0 {
        match missing_message {
            Ok(message) => Err(element_error(nodes, config, Some(message), container)),
            Err(error) => Err(error),
        }
    } else {
        Ok(found)
    }
}

/// Insists on an element: none found is an error.
pub fn make_get_all_query(
    found: Vec<NodeId>,
    query: &Query,
    doc: &Document,
    config: &Config,
    container: NodeId,
) -> (r: Result<Vec<NodeId>, QueryError>)
    ensures
        found.len() > 0 ==> r == Ok::<Vec<NodeId>, QueryError>(found),
        found_view(r) == at_least_one(
            doc.nodes(),
            *config,
            container,
            found@,
            query.missing_message(*config),
        ),
{
    if found.len() == 0 {
        let message = query.missing_error(config)?;
        Err(get_element_error(Some(message), doc, config, container))
    } else {
        Ok(found)
    }
}

/// The call that is proposed in place of the query made.
pub open spec fn proposed_call(variant: Variant, alt: Seq<char>) -> Seq<char> {
    query_method(variant, Method::AltText) + "("@ + ("'"@ + alt + "'"@) + ")"@
}

/// The element found, unless suggestions are switched on and there is a
/// better query for it than the one made: that is an error which proposes the
/// better query.
pub open spec fn suggested(
    nodes: Seq<Node>,
    config: Config,
    throw_suggestions: bool,
    container: NodeId,
    element: Option<NodeId>,
    method: Method,
    variant: Variant,
) -> Result<Option<NodeId>, QueryErrorView> {
    match element {
        Some(found) => match suggested_alt(nodes[found as int], None) {
            Some(alt) => if throw_suggestions && method != Method::AltText {
                Err(
                    element_error(
                        nodes,
                        config,
                        Some(suggestion_prefix() + proposed_call(variant, alt)),
                        container,
                    ),
                )
            } else {
                Ok(element)
            },
            None => Ok(element),
        },
        None => Ok(element),
    }
}

/// Proposes a better query in place of the element found, where suggestions
/// are switched on and there is one.
pub fn wrap_single_query_with_suggestion(
    element: Option<NodeId>,
    method: Method,
    variant: Variant,
    doc: &Document,
    config: &Config,
    container: NodeId,
) -> (r: Result<Option<NodeId>, QueryError>)
    requires
        element matches Some(found) ==> doc.contains(found),
    ensures
        one_view(r) == suggested(
            doc.nodes(),
            *config,
            config.throw_suggestions,
            container,
            element,
            method,
            variant,
        ),
{
    match element {
        Some(found) => {
            if config.throw_suggestions {
                match get_suggested_query(doc, found, Some(variant), None) {
                    Some(suggestion) => {
                        if suggestion.query_name != method {
                            return Err(
                                get_suggestion_error(
                                    suggestion.to_string(),
                                    doc,
                                    config,
                                    container,
                                ),
                            );
                        }
                    },
                    None => {},
                }
            }
            Ok(element)
        },
        None => Ok(element),
    }
}

// ---------------------------------------------------------------------------
// The family
// ---------------------------------------------------------------------------
/// What `query` returns for the elements found.
pub open spec fn query_of(
    nodes: Seq<Node>,
    config: Config,
    container: NodeId,
    found: Seq<NodeId>,
    multiple_message: Seq<char>,
    method: Method,
) -> Result<Option<NodeId>, QueryErrorView> {
    match single(nodes, config, container, found, multiple_message) {
        Ok(element) => suggested(
            nodes,
            config,
            config.throw_suggestions,
            container,
            element,
            method,
            Variant::Query,
        ),
        Err(error) => Err(error),
    }
}

/// What `get` returns for the elements found.
pub open spec fn get_of(
    nodes: Seq<Node>,
    config: Config,
    container: NodeId,
    found: Seq<NodeId>,
    multiple_message: Seq<char>,
    missing_message: Result<Seq<char>, QueryErrorView>,
    method: Method,
    variant: Variant,
) -> Result<NodeId, QueryErrorView> {
    match at_least_one(nodes, config, container, found, missing_message) {
        Ok(found) => match single(nodes, config, container, found, multiple_message) {
            Ok(element) => match suggested(
                nodes,
                config,
                config.throw_suggestions,
                container,
                element,
                method,
                variant,
            ) {
                Ok(_) => Ok(found[0]),
                Err(error) => Err(error),
            },
            Err(error) => Err(error),
        },
        Err(error) => Err(error),
    }
}

/// Whether a better query is proposed in place of the one element found.
pub open spec fn proposes(nodes: Seq<Node>, config: Config, found: Seq<NodeId>, method: Method) -> bool {
    config.throw_suggestions && found.len() == 1 && method != Method::AltText && suggested_alt(
        nodes[found[0] as int],
        None,
    ) is Some
}

/// What `query_all` promises: the elements that the query finds, or its
/// error.
pub open spec fn query_all_post(
    asked: Query,
    nodes: Seq<Node>,
    config: Config,
    container: NodeId,
    r: Result<Vec<NodeId>, QueryError>,
) -> bool {
    &&& found_view(r) == asked.found(nodes, config, container)
    &&& r matches Ok(found) ==> all_elements(nodes, found@)
}

/// What `query` promises: the one element of those that the query finds, or
/// the query's error.
pub open spec fn query_post(
    asked: Query,
    nodes: Seq<Node>,
    config: Config,
    container: NodeId,
    r: Result<Option<NodeId>, QueryError>,
) -> bool {
    &&& one_view(r) == match asked.found(nodes, config, container) {
        Ok(found) => query_of(
            nodes,
            config,
            container,
            found,
            asked.multiple_message(config),
            asked.method_of(),
        ),
        Err(error) => Err(error),
    }
    &&& r matches Ok(Some(element)) ==> element < nodes.len() && nodes[element as int].kind
        == NodeKind::Element
}

/// What `get_all` promises: the elements that the query finds, where there
/// are any, or the query's error.
pub open spec fn get_all_post(
    asked: Query,
    nodes: Seq<Node>,
    config: Config,
    container: NodeId,
    r: Result<Vec<NodeId>, QueryError>,
) -> bool {
    &&& found_view(r) == match asked.found(nodes, config, container) {
        Ok(found) => at_least_one(nodes, config, container, found, asked.missing_message(config)),
        Err(error) => Err(error),
    }
    &&& r matches Ok(found) ==> found.len() > 0 && all_elements(nodes, found@)
}

/// What `get` promises.
pub open spec fn get_post(
    asked: Query,
    nodes: Seq<Node>,
    config: Config,
    container: NodeId,
    r: Result<NodeId, QueryError>,
) -> bool {
    get_post_as(asked, nodes, config, container, Variant::Get, r)
}

/// What `get` promises, where it is called as the variant given: the one
/// element that the query finds, or the query's error.
pub open spec fn get_post_as(
    asked: Query,
    nodes: Seq<Node>,
    config: Config,
    container: NodeId,
    variant: Variant,
    r: Result<NodeId, QueryError>,
) -> bool {
    &&& one_view(r) == match asked.found(nodes, config, container) {
        Ok(found) => get_of(
            nodes,
            config,
            container,
            found,
            asked.multiple_message(config),
            asked.missing_message(config),
            asked.method_of(),
            variant,
        ),
        Err(error) => Err(error),
    }
    &&& r matches Ok(element) ==> element < nodes.len() && nodes[element as int].kind
        == NodeKind::Element
}

/// All elements that the query asks for; none is no error.
pub fn query_all(doc: &Document, config: &Config, container: NodeId, asked: &Query) -> (r: Result<
    Vec<NodeId>,
    QueryError,
>)
    requires
        doc.contains(container),
    ensures
        query_all_post(*asked, doc.nodes(), *config, container, r),
{
    asked.find_all(doc, config, container)
}

/// The element that the query asks for, or `None` where there is none;
/// several are an error.
pub fn query(doc: &Document, config: &Config, container: NodeId, asked: &Query) -> (r: Result<
    Option<NodeId>,
    QueryError,
>)
    requires
        doc.contains(container),
    ensures
        query_post(*asked, doc.nodes(), *config, container, r),
{
    let found = asked.find_all(doc, config, container)?;
    let element = make_single_query(found, asked, doc, config, container)?;
    wrap_single_query_with_suggestion(
        element,
        asked.method(),
        Variant::Query,
        doc,
        config,
        container,
    )
}

/// All elements that the query asks for; none is an error.
pub fn get_all(doc: &Document, config: &Config, container: NodeId, asked: &Query) -> (r: Result<
    Vec<NodeId>,
    QueryError,
>)
    requires
        doc.contains(container),
    ensures
        get_all_post(*asked, doc.nodes(), *config, container, r),
{
    let found = asked.find_all(doc, config, container)?;
    make_get_all_query(found, asked, doc, config, container)
}

/// The one element that the query asks for; none and several are errors.
pub fn get(doc: &Document, config: &Config, container: NodeId, asked: &Query) -> (r: Result<
    NodeId,
    QueryError,
>)
    requires
        doc.contains(container),
    ensures
        get_post(*asked, doc.nodes(), *config, container, r),
{
    get_as(doc, config, container, asked, Variant::Get)
}

/// `get`, with the name of the variant that a suggestion is to propose.
pub fn get_as(
    doc: &Document,
    config: &Config,
    container: NodeId,
    asked: &Query,
    variant: Variant,
) -> (r: Result<NodeId, QueryError>)
    requires
        doc.contains(container),
    ensures
        get_post_as(*asked, doc.nodes(), *config, container, variant, r),
{
    let found = get_all(doc, config, container, asked)?;
    let ghost all = found@;
    let first = found[0];
    make_single_query(found, asked, doc, config, container)?;
    wrap_single_query_with_suggestion(Some(first), asked.method(), variant, doc, config, container)?;
    assert(all =~= seq![first]);
    Ok(first)
}

/// Where a query finds nothing, `query` returns no element and no error, and
/// `get` fails with an element error that starts with the query's message for
/// nothing found; this of the default element error.
pub proof fn lemma_nothing_found(
    nodes: Seq<Node>,
    config: Config,
    container: NodeId,
    multiple_message: Seq<char>,
    missing_message: Seq<char>,
    method: Method,
)
    requires
        config.get_element_error is None,
    ensures
        query_of(nodes, config, container, Seq::empty(), multiple_message, method) == Ok::<
            Option<NodeId>,
            QueryErrorView,
        >(None),
        get_of(
            nodes,
            config,
            container,
            Seq::empty(),
            multiple_message,
            Ok(missing_message),
            method,
            Variant::Get,
        ) matches Err(QueryErrorView::Element(text)) && text.len() >= missing_message.len()
            && text.subrange(0, missing_message.len() as int) == missing_message,
{
    let text = element_error_text(
        Some(missing_message),
        config.default_ignore@,
        pretty_dom_text(nodes, config.default_ignore@, Some(container), None),
    );
    assert(text.subrange(0, missing_message.len() as int) == missing_message);
}

/// Where a query finds several elements, `query` and `get` both fail with an
/// element error that starts with the query's message for several found; this
/// of the default element error.
pub proof fn lemma_several_found(
    nodes: Seq<Node>,
    config: Config,
    container: NodeId,
    found: Seq<NodeId>,
    multiple_message: Seq<char>,
    missing_message: Seq<char>,
    method: Method,
)
    requires
        found.len() > 1,
        config.get_element_error is None,
    ensures
        query_of(nodes, config, container, found, multiple_message, method) matches Err(
            QueryErrorView::Element(text),
        ) && text.len() >= multiple_message.len() && text.subrange(
            0,
            multiple_message.len() as int,
        ) == multiple_message,
        get_of(
            nodes,
            config,
            container,
            found,
            multiple_message,
            Ok(missing_message),
            method,
            Variant::Get,
        ) is Err,
        get_of(
            nodes,
            config,
            container,
            found,
            multiple_message,
            Ok(missing_message),
            method,
            Variant::Get,
        )->Err_0 == query_of(nodes, config, container, found, multiple_message, method)->Err_0,
{
    let text = element_error_text(
        Some(multiple_text(nodes, config, multiple_message, found) + multiple_hint()),
        config.default_ignore@,
        pretty_dom_text(nodes, config.default_ignore@, Some(container), None),
    );
    assert(text.subrange(0, multiple_message.len() as int) == multiple_message);
}

// ---------------------------------------------------------------------------
// Retried queries
// ---------------------------------------------------------------------------
/// Where the document comes from while a query is retried.
pub trait Snapshots {
    /// The document as it is now.
    fn take(&self) -> Document;
}

/// The message for a container that is not in the document at a poll.
pub open spec fn container_missing() -> Seq<char> {
    "The container is not in the document."@
}

fn missing_container<T>() -> (r: Result<T, QueryError>)
    ensures
        r matches Err(error) && error@ == QueryErrorView::Element(container_missing()),
{
    Err(QueryError::Element(String::from_str("The container is not in the document.")))
}

/// Whether `get` finds its element in a document:
/// the container is in the document, the query finds exactly one element, and
/// no better query is proposed in its place.
pub open spec fn finds_one(asked: Query, doc: Document, config: Config, container: NodeId) -> bool {
    doc.contains(container) && match asked.found(doc.nodes(), config, container) {
        Ok(found) => found.len() == 1 && !proposes(doc.nodes(), config, found, asked.method_of()),
        Err(_) => false,
    }
}

/// Whether `get` fails on a document: the container
/// is not in the document, or the query fails, or it finds no element or
/// several.
pub open spec fn misses_one(asked: Query, doc: Document, config: Config, container: NodeId) -> bool {
    !doc.contains(container) || match asked.found(doc.nodes(), config, container) {
        Ok(found) => found.len() != 1,
        Err(_) => true,
    }
}

/// What a poll of `find` makes of a document: what `get` returns for the
/// document, or the error for a container that is not in it.
pub open spec fn polled_one(
    asked: Query,
    doc: Document,
    config: Config,
    container: NodeId,
    r: Result<NodeId, QueryError>,
) -> bool {
    if doc.contains(container) {
        get_post_as(asked, doc.nodes(), config, container, Variant::Find, r)
    } else {
        one_view(r) == Err::<NodeId, QueryErrorView>(QueryErrorView::Element(container_missing()))
    }
}

/// What `find` promises. The element returned was found by `get` in a
/// document that the source gave, and is returned with that document. An
/// error is the error of a poll of a document that the source gave. Where
/// every document that the source can give is one in which `get` finds its
/// element, `find` succeeds; where `get` fails on every one of them, `find`
/// fails. It fails for no element found, or too many, only when the wait has
/// lasted its whole time.
pub open spec fn find_post<S: Snapshots, C: Clock>(
    source: &S,
    clock: &C,
    options: WaitForOptions,
    asked: Query,
    config: Config,
    container: NodeId,
    r: Result<(Document, NodeId), WaitForError<QueryError>>,
) -> bool {
    &&& r matches Err(WaitForError::Error(error)) ==> is_retried(error) ==> waited_out(
        clock,
        options,
        config,
    )
    &&& r matches Ok((doc, element)) ==> call_ensures(S::take, (source,), doc) && doc.contains(
        container,
    ) && get_post_as(asked, doc.nodes(), config, container, Variant::Find, Ok(element))
    &&& r matches Err(failure) ==> failure is Error && exists|doc: Document|
        #[trigger] call_ensures(S::take, (source,), doc) && polled_one(
            asked,
            doc,
            config,
            container,
            Err(failure->Error_0),
        )
    &&& (forall|doc: Document| #[trigger]
        call_ensures(S::take, (source,), doc) ==> finds_one(asked, doc, config, container)) ==> r
        is Ok
    &&& (forall|doc: Document| #[trigger]
        call_ensures(S::take, (source,), doc) ==> misses_one(asked, doc, config, container)) ==> r
        is Err
}

/// Retries `get` on the document as it is at each poll, until it finds its
/// element or the time is over. Returns the element with the document that
/// it was found in; at the timeout, the error of the last poll. An error that
/// no retry can mend, such as options in conflict, ends the waiting at once.
pub fn find<S: Snapshots, C: Clock>(
    source: &S,
    clock: &C,
    config: &Config,
    container: NodeId,
    asked: &Query,
    options: &WaitForOptions,
) -> (r: Result<(Document, NodeId), WaitForError<QueryError>>)
    ensures
        find_post(source, clock, *options, *asked, *config, container, r),
{
    let start = clock.now();
    let mut wait: WaitFor<QueryError> = WaitFor::new(start, options, config);
    loop
        invariant
            call_ensures(C::now, (clock,), start),
            wait.deadline == saturating_sum(
                start,
                time_of(options.timeout, config.async_util_timeout, 0),
            ),
            !wait.settled,
            wait.polled ==> wait.last_error is Some,
            wait.last_error matches Some(error) ==> exists|doc: Document|
                #[trigger] call_ensures(S::take, (source,), doc) && polled_one(
                    *asked,
                    doc,
                    *config,
                    container,
                    Err(error),
                ),
        decreases
                (if !wait.polled {
                    u64::MAX + 2
                } else if wait.next_poll < wait.deadline {
                    wait.deadline - wait.next_poll + 1
                } else {
                    1
                }),
    {
        match wait.next_action() {
            WaitAction::Poll { at } => {
                clock.sleep_until(at);
                let doc = source.take();
                let outcome = if container < doc.node_count() {
                    get_as(&doc, config, container, asked, Variant::Find)
                } else {
                    missing_container()
                };
                assert(polled_one(*asked, doc, *config, container, outcome));
                match on_query_poll(&mut wait, outcome) {
                    Some(Ok(element)) => {
                        return Ok((doc, element));
                    },
                    Some(Err(error)) => {
                        return Err(error);
                    },
                    None => {},
                }
            },
            WaitAction::TimeOut { at } => {
                clock.sleep_until(at);
                match wait.on_timeout::<NodeId>() {
                    Some(Err(error)) => {
                        return Err(error);
                    },
                    _ => {},
                }
            },
            WaitAction::Done => {},
        }
    }
}

/// Whether `get_all` finds elements in a document:
/// the container is in the document and the query finds an element or more.
pub open spec fn finds_any(asked: Query, doc: Document, config: Config, container: NodeId) -> bool {
    doc.contains(container) && match asked.found(doc.nodes(), config, container) {
        Ok(found) => found.len() > 0,
        Err(_) => false,
    }
}

/// Whether `get_all` fails on a document: the
/// container is not in the document, or the query fails or finds no element.
pub open spec fn misses_all(asked: Query, doc: Document, config: Config, container: NodeId) -> bool {
    !doc.contains(container) || match asked.found(doc.nodes(), config, container) {
        Ok(found) => found.len() == 0,
        Err(_) => true,
    }
}

/// What a poll of `find_all` makes of a document: what `get_all` returns for
/// the document, or the error for a container that is not in it.
pub open spec fn polled_all(
    asked: Query,
    doc: Document,
    config: Config,
    container: NodeId,
    r: Result<Vec<NodeId>, QueryError>,
) -> bool {
    if doc.contains(container) {
        get_all_post(asked, doc.nodes(), config, container, r)
    } else {
        found_view(r) == Err::<Seq<NodeId>, QueryErrorView>(
            QueryErrorView::Element(container_missing()),
        )
    }
}

/// What `find_all` promises. The elements returned were found by `get_all` in
/// a document that the source gave, and are returned with that document. An
/// error is the error of a poll of a document that the source gave. Where
/// every document that the source can give is one in which `get_all` finds
/// elements, `find_all` succeeds; where `get_all` fails on every one of them,
/// `find_all` fails. It fails for no element found only when the wait has
/// lasted its whole time.
pub open spec fn find_all_post<S: Snapshots, C: Clock>(
    source: &S,
    clock: &C,
    options: WaitForOptions,
    asked: Query,
    config: Config,
    container: NodeId,
    r: Result<(Document, Vec<NodeId>), WaitForError<QueryError>>,
) -> bool {
    &&& r matches Err(WaitForError::Error(error)) ==> is_retried(error) ==> waited_out(
        clock,
        options,
        config,
    )
    &&& r matches Ok((doc, elements)) ==> call_ensures(S::take, (source,), doc) && doc.contains(
        container,
    ) && get_all_post(asked, doc.nodes(), config, container, Ok(elements))
    &&& r matches Err(failure) ==> failure is Error && exists|doc: Document|
        #[trigger] call_ensures(S::take, (source,), doc) && polled_all(
            asked,
            doc,
            config,
            container,
            Err(failure->Error_0),
        )
    &&& (forall|doc: Document| #[trigger]
        call_ensures(S::take, (source,), doc) ==> finds_any(asked, doc, config, container)) ==> r
        is Ok
    &&& (forall|doc: Document| #[trigger]
        call_ensures(S::take, (source,), doc) ==> misses_all(asked, doc, config, container)) ==> r
        is Err
}

/// Retries `get_all` on the document as it is at each poll, until it finds
/// elements or the time is over. Returns the elements with the document that
/// they were found in; at the timeout, the error of the last poll. An error
/// that no retry can mend ends the waiting at once.
pub fn find_all<S: Snapshots, C: Clock>(
    source: &S,
    clock: &C,
    config: &Config,
    container: NodeId,
    asked: &Query,
    options: &WaitForOptions,
) -> (r: Result<(Document, Vec<NodeId>), WaitForError<QueryError>>)
    ensures
        find_all_post(source, clock, *options, *asked, *config, container, r),
{
    let start = clock.now();
    let mut wait: WaitFor<QueryError> = WaitFor::new(start, options, config);
    loop
        invariant
            call_ensures(C::now, (clock,), start),
            wait.deadline == saturating_sum(
                start,
                time_of(options.timeout, config.async_util_timeout, 0),
            ),
            !wait.settled,
            wait.polled ==> wait.last_error is Some,
            wait.last_error matches Some(error) ==> exists|doc: Document|
                #[trigger] call_ensures(S::take, (source,), doc) && polled_all(
                    *asked,
                    doc,
                    *config,
                    container,
                    Err(error),
                ),
        decreases
                (if !wait.polled {
                    u64::MAX + 2
                } else if wait.next_poll < wait.deadline {
                    wait.deadline - wait.next_poll + 1
                } else {
                    1
                }),
    {
        match wait.next_action() {
            WaitAction::Poll { at } => {
                clock.sleep_until(at);
                let doc = source.take();
                let outcome = if container < doc.node_count() {
                    get_all(&doc, config, container, asked)
                } else {
                    missing_container()
                };
                assert(polled_all(*asked, doc, *config, container, outcome));
                match on_query_poll(&mut wait, outcome) {
                    Some(Ok(elements)) => {
                        return Ok((doc, elements));
                    },
                    Some(Err(error)) => {
                        return Err(error);
                    },
                    None => {},
                }
            },
            WaitAction::TimeOut { at } => {
                clock.sleep_until(at);
                match wait.on_timeout::<Vec<NodeId>>() {
                    Some(Err(error)) => {
                        return Err(error);
                    },
                    _ => {},
                }
            },
            WaitAction::Done => {},
        }
    }
}

} // verus!
