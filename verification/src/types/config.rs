//! The configuration that every query reads.
use vstd::prelude::*;
use vstd::string::StringExecFns;
use crate::document::{Document, Node, NodeId};
use crate::error::{QueryError, QueryErrorView};
use crate::matches::option_view;

verus! {

/// Builds the error of a query that found no element, or too many, from the
/// message and the container that was searched. The error depends on the
/// message, the nodes of the document and the container alone: `built` is
/// that error.
pub trait GetElementErrorFn {
    /// The error that is built. An implementation that does not say what it
    /// builds leaves this as it is: some function of the three.
    open spec fn built(
        &self,
        message: Option<Seq<char>>,
        nodes: Seq<Node>,
        container: NodeId,
    ) -> QueryErrorView {
        (arbitrary::<spec_fn(&Self, Option<Seq<char>>, Seq<Node>, NodeId) -> QueryErrorView>())(
            self,
            message,
            nodes,
            container,
        )
    }

    fn build(&self, message: Option<String>, doc: &Document, container: NodeId) -> (error:
        QueryError)
        ensures
            error@ == self.built(option_view(message), doc.nodes(), container),
    ;
}

/// What every query reads of its surroundings.
pub struct Config {
    /// The attribute that queries by test id read.
    pub test_id_attribute: String,
    /// Default value for the `hidden` option in `by_role` queries.
    pub default_hidden: bool,
    /// Default value for the `ignore` option in `by_text` queries.
    pub default_ignore: String,
    /// Flag to show the full error stack traces for async errors.
    pub show_original_stack_trace: bool,
    /// Throw errors with suggestions for better queries. Opt in so off by default.
    pub throw_suggestions: bool,
    /// How long a retried query goes on, in the unit of the caller's clock.
    pub async_util_timeout: u64,
    /// Called when `get_by` queries fail; `None` stands for the default, which
    /// adds the printed container to the message.
    pub get_element_error: Option<Box<dyn GetElementErrorFn>>,
}

impl Default for Config {
    fn default() -> (config: Config)
        ensures
            config.test_id_attribute@ == "data-testid"@,
            !config.default_hidden,
            config.default_ignore@ == "script, style"@,
            !config.show_original_stack_trace,
            !config.throw_suggestions,
            config.async_util_timeout == 1000,
            config.get_element_error is None,
    {
        Config {
            test_id_attribute: String::from_str("data-testid"),
            default_hidden: false,
            default_ignore: String::from_str("script, style"),
            show_original_stack_trace: false,
            throw_suggestions: false,
            async_util_timeout: 1000,
            get_element_error: None,
        }
    }
}

/// The value of a field after an update: the new one where there is one.
pub open spec fn updated<T>(old: T, new: Option<T>) -> T {
    match new {
        Some(value) => value,
        None => old,
    }
}

impl Config {
    /// Takes over each field that `other` sets and leaves the others as they
    /// are.
    pub fn update(&mut self, other: PartialConfig)
        ensures
            final(self).test_id_attribute == updated(
                old(self).test_id_attribute,
                other.test_id_attribute,
            ),
            final(self).default_hidden == updated(old(self).default_hidden, other.default_hidden),
            final(self).default_ignore == updated(old(self).default_ignore, other.default_ignore),
            final(self).show_original_stack_trace == updated(
                old(self).show_original_stack_trace,
                other.show_original_stack_trace,
            ),
            final(self).throw_suggestions == updated(
                old(self).throw_suggestions,
                other.throw_suggestions,
            ),
            final(self).async_util_timeout == updated(
                old(self).async_util_timeout,
                other.async_util_timeout,
            ),
            final(self).get_element_error == if other.get_element_error is Some {
                other.get_element_error
            } else {
                old(self).get_element_error
            },
    {
        if let Some(test_id_attribute) = other.test_id_attribute {
            self.test_id_attribute = test_id_attribute;
        }
        if let Some(default_hidden) = other.default_hidden {
            self.default_hidden = default_hidden;
        }
        if let Some(default_ignore) = other.default_ignore {
            self.default_ignore = default_ignore;
        }
        if let Some(show_original_stack_trace) = other.show_original_stack_trace {
            self.show_original_stack_trace = show_original_stack_trace;
        }
        if let Some(throw_suggestions) = other.throw_suggestions {
            self.throw_suggestions = throw_suggestions;
        }
        if let Some(async_util_timeout) = other.async_util_timeout {
            self.async_util_timeout = async_util_timeout;
        }
        if other.get_element_error.is_some() {
            self.get_element_error = other.get_element_error;
        }
    }
}

/// A configuration of which only some fields are set.
pub struct PartialConfig {
    pub test_id_attribute: Option<String>,
    pub default_hidden: Option<bool>,
    pub default_ignore: Option<String>,
    pub show_original_stack_trace: Option<bool>,
    pub throw_suggestions: Option<bool>,
    pub async_util_timeout: Option<u64>,
    pub get_element_error: Option<Box<dyn GetElementErrorFn>>,
}

impl Default for PartialConfig {
    fn default() -> (r: PartialConfig)
        ensures
            r == (PartialConfig {
                test_id_attribute: None,
                default_hidden: None,
                default_ignore: None,
                show_original_stack_trace: None,
                throw_suggestions: None,
                async_util_timeout: None,
                get_element_error: None,
            }),
    {
        PartialConfig {
            test_id_attribute: None,
            default_hidden: None,
            default_ignore: None,
            show_original_stack_trace: None,
            throw_suggestions: None,
            async_util_timeout: None,
            get_element_error: None,
        }
    }
}

impl PartialConfig {
    pub fn test_id_attribute(self, value: String) -> (r: Self)
        ensures
            r == (Self { test_id_attribute: Some(value), ..self }),
    {
        let mut r = self;
        r.test_id_attribute = Some(value);
        r
    }

    pub fn default_hidden(self, value: bool) -> (r: Self)
        ensures
            r == (Self { default_hidden: Some(value), ..self }),
    {
        let mut r = self;
        r.default_hidden = Some(value);
        r
    }

    pub fn default_ignore(self, value: String) -> (r: Self)
        ensures
            r == (Self { default_ignore: Some(value), ..self }),
    {
        let mut r = self;
        r.default_ignore = Some(value);
        r
    }

    pub fn show_original_stack_trace(self, value: bool) -> (r: Self)
        ensures
            r == (Self { show_original_stack_trace: Some(value), ..self }),
    {
        let mut r = self;
        r.show_original_stack_trace = Some(value);
        r
    }

    pub fn throw_suggestions(self, value: bool) -> (r: Self)
        ensures
            r == (Self { throw_suggestions: Some(value), ..self }),
    {
        let mut r = self;
        r.throw_suggestions = Some(value);
        r
    }

    pub fn async_util_timeout(self, value: u64) -> (r: Self)
        ensures
            r == (Self { async_util_timeout: Some(value), ..self }),
    {
        let mut r = self;
        r.async_util_timeout = Some(value);
        r
    }

    pub fn get_element_error(self, value: Box<dyn GetElementErrorFn>) -> (r: Self)
        ensures
            r == (Self { get_element_error: Some(value), ..self }),
    {
        let mut r = self;
        r.get_element_error = Some(value);
        r
    }
}

/// Computes an update from the configuration in force. The update depends on
/// that configuration alone: `computed` is that update.
pub trait ConfigFn {
    /// The update that is computed. An implementation that does not say what
    /// it computes leaves this as it is: some function of the configuration.
    open spec fn computed(&self, config: Config) -> PartialConfig {
        (arbitrary::<spec_fn(&Self, Config) -> PartialConfig>())(self, config)
    }

    fn call(&self, config: &Config) -> (partial: PartialConfig)
        ensures
            partial == self.computed(*config),
    ;
}

/// An update of the configuration: given, or to be computed.
pub enum ConfigFnOrPartial {
    Fn(Box<dyn ConfigFn>),
    Partial(PartialConfig),
}

} // verus!
