//! The options of a query by role.
use vstd::prelude::*;
use vstd::string::StringExecFns;
use crate::text::str_eq;
use crate::types::matches::Matcher;

verus! {

/// What a range widget must report: each field that is set must agree.
pub struct ByRoleOptionsValue {
    pub now: Option<i64>,
    pub min: Option<i64>,
    pub max: Option<i64>,
    pub text: Option<Matcher>,
}

impl Default for ByRoleOptionsValue {
    /// Nothing set.
    fn default() -> (r: Self)
        ensures
            r == (ByRoleOptionsValue { now: None, min: None, max: None, text: None }),
    {
        ByRoleOptionsValue::new()
    }
}

impl ByRoleOptionsValue {
    pub fn new() -> (r: Self)
        ensures
            r == (ByRoleOptionsValue { now: None, min: None, max: None, text: None }),
    {
        ByRoleOptionsValue { now: None, min: None, max: None, text: None }
    }

    pub fn now(self, value: i64) -> (r: Self)
        ensures
            r == (Self { now: Some(value), ..self }),
    {
        let mut r = self;
        r.now = Some(value);
        r
    }

    pub fn min(self, value: i64) -> (r: Self)
        ensures
            r == (Self { min: Some(value), ..self }),
    {
        let mut r = self;
        r.min = Some(value);
        r
    }

    pub fn max(self, value: i64) -> (r: Self)
        ensures
            r == (Self { max: Some(value), ..self }),
    {
        let mut r = self;
        r.max = Some(value);
        r
    }

    pub fn text(self, value: Matcher) -> (r: Self)
        ensures
            r == (Self { text: Some(value), ..self }),
    {
        let mut r = self;
        r.text = Some(value);
        r
    }
}

/// The value of `aria-current`: true, false, or one of its tokens.
#[derive(Debug, PartialEq, Eq)]
pub enum ByRoleOptionsCurrent {
    Bool(bool),
    String(String),
}

impl ByRoleOptionsCurrent {
    /// Whether two values are the same: the same boolean, or the same text.
    pub open spec fn same(self, other: Self) -> bool {
        match (self, other) {
            (ByRoleOptionsCurrent::Bool(a), ByRoleOptionsCurrent::Bool(b)) => a == b,
            (ByRoleOptionsCurrent::String(a), ByRoleOptionsCurrent::String(b)) => a@ == b@,
            _ => false,
        }
    }

    /// Whether two values are the same.
    pub fn equals(&self, other: &Self) -> (r: bool)
        ensures
            r == self.same(*other),
    {
        match (self, other) {
            (ByRoleOptionsCurrent::Bool(a), ByRoleOptionsCurrent::Bool(b)) => *a == *b,
            (ByRoleOptionsCurrent::String(a), ByRoleOptionsCurrent::String(b)) => str_eq(
                a.as_str(),
                b.as_str(),
            ),
            _ => false,
        }
    }
}

impl Clone for ByRoleOptionsCurrent {
    fn clone(&self) -> (r: Self)
        ensures
            r == *self,
    {
        match self {
            ByRoleOptionsCurrent::Bool(value) => ByRoleOptionsCurrent::Bool(*value),
            ByRoleOptionsCurrent::String(value) => ByRoleOptionsCurrent::String(value.clone()),
        }
    }
}

impl vstd::std_specs::convert::FromSpecImpl<bool> for ByRoleOptionsCurrent {
    open spec fn obeys_from_spec() -> bool {
        true
    }

    open spec fn from_spec(value: bool) -> ByRoleOptionsCurrent {
        ByRoleOptionsCurrent::Bool(value)
    }
}

impl From<bool> for ByRoleOptionsCurrent {
    fn from(value: bool) -> (r: ByRoleOptionsCurrent)
        ensures
            r == ByRoleOptionsCurrent::Bool(value),
    {
        ByRoleOptionsCurrent::Bool(value)
    }
}

impl vstd::std_specs::convert::FromSpecImpl<&str> for ByRoleOptionsCurrent {
    open spec fn obeys_from_spec() -> bool {
        false
    }

    open spec fn from_spec(value: &str) -> ByRoleOptionsCurrent {
        arbitrary()
    }
}

impl From<&str> for ByRoleOptionsCurrent {
    fn from(value: &str) -> (r: ByRoleOptionsCurrent)
        ensures
            r matches ByRoleOptionsCurrent::String(text) && text@ == value@,
    {
        ByRoleOptionsCurrent::String(String::from_str(value))
    }
}

impl vstd::std_specs::convert::FromSpecImpl<String> for ByRoleOptionsCurrent {
    open spec fn obeys_from_spec() -> bool {
        true
    }

    open spec fn from_spec(value: String) -> ByRoleOptionsCurrent {
        ByRoleOptionsCurrent::String(value)
    }
}

impl From<String> for ByRoleOptionsCurrent {
    fn from(value: String) -> (r: ByRoleOptionsCurrent)
        ensures
            r == ByRoleOptionsCurrent::String(value),
    {
        ByRoleOptionsCurrent::String(value)
    }
}

/// The options of a query by role. Each of `selected`, `busy`, `checked`,
/// `pressed`, `current`, `expanded` and the fields of `value` may be set only
/// for a role that supports the matching ARIA property, and `level` only for
/// the role heading.
pub struct ByRoleOptions {
    pub suggest: Option<bool>,
    /// Whether elements outside the accessibility tree are found too.
    pub hidden: Option<bool>,
    pub selected: Option<bool>,
    pub busy: Option<bool>,
    pub checked: Option<bool>,
    pub pressed: Option<bool>,
    pub current: Option<ByRoleOptionsCurrent>,
    pub expanded: Option<bool>,
    pub level: Option<usize>,
    pub value: Option<ByRoleOptionsValue>,
    /// Whether any word of the `role` attribute may name the role, not only
    /// the first.
    pub query_fallbacks: Option<bool>,
    /// The accessible name.
    pub name: Option<Matcher>,
    /// The accessible description.
    pub description: Option<Matcher>,
}

impl Default for ByRoleOptions {
    /// Nothing set.
    fn default() -> (r: Self)
        ensures
            r == (ByRoleOptions {
                suggest: None,
                hidden: None,
                selected: None,
                busy: None,
                checked: None,
                pressed: None,
                current: None,
                expanded: None,
                level: None,
                value: None,
                query_fallbacks: None,
                name: None,
                description: None,
            }),
    {
        ByRoleOptions::new()
    }
}

impl ByRoleOptions {
    pub fn new() -> (r: Self)
        ensures
            r == (ByRoleOptions {
                suggest: None,
                hidden: None,
                selected: None,
                busy: None,
                checked: None,
                pressed: None,
                current: None,
                expanded: None,
                level: None,
                value: None,
                query_fallbacks: None,
                name: None,
                description: None,
            }),
    {
        ByRoleOptions {
            suggest: None,
            hidden: None,
            selected: None,
            busy: None,
            checked: None,
            pressed: None,
            current: None,
            expanded: None,
            level: None,
            value: None,
            query_fallbacks: None,
            name: None,
            description: None,
        }
    }

    pub fn suggest(self, value: bool) -> (r: Self)
        ensures
            r == (Self { suggest: Some(value), ..self }),
    {
        let mut r = self;
        r.suggest = Some(value);
        r
    }

    pub fn hidden(self, value: bool) -> (r: Self)
        ensures
            r == (Self { hidden: Some(value), ..self }),
    {
        let mut r = self;
        r.hidden = Some(value);
        r
    }

    pub fn selected(self, value: bool) -> (r: Self)
        ensures
            r == (Self { selected: Some(value), ..self }),
    {
        let mut r = self;
        r.selected = Some(value);
        r
    }

    pub fn busy(self, value: bool) -> (r: Self)
        ensures
            r == (Self { busy: Some(value), ..self }),
    {
        let mut r = self;
        r.busy = Some(value);
        r
    }

    pub fn checked(self, value: bool) -> (r: Self)
        ensures
            r == (Self { checked: Some(value), ..self }),
    {
        let mut r = self;
        r.checked = Some(value);
        r
    }

    pub fn pressed(self, value: bool) -> (r: Self)
        ensures
            r == (Self { pressed: Some(value), ..self }),
    {
        let mut r = self;
        r.pressed = Some(value);
        r
    }

    pub fn current(self, value: ByRoleOptionsCurrent) -> (r: Self)
        ensures
            r == (Self { current: Some(value), ..self }),
    {
        let mut r = self;
        r.current = Some(value);
        r
    }

    pub fn expanded(self, value: bool) -> (r: Self)
        ensures
            r == (Self { expanded: Some(value), ..self }),
    {
        let mut r = self;
        r.expanded = Some(value);
        r
    }

    pub fn level(self, value: usize) -> (r: Self)
        ensures
            r == (Self { level: Some(value), ..self }),
    {
        let mut r = self;
        r.level = Some(value);
        r
    }

    pub fn value(self, value: ByRoleOptionsValue) -> (r: Self)
        ensures
            r == (Self { value: Some(value), ..self }),
    {
        let mut r = self;
        r.value = Some(value);
        r
    }

    pub fn query_fallbacks(self, value: bool) -> (r: Self)
        ensures
            r == (Self { query_fallbacks: Some(value), ..self }),
    {
        let mut r = self;
        r.query_fallbacks = Some(value);
        r
    }

    pub fn name(self, value: Matcher) -> (r: Self)
        ensures
            r == (Self { name: Some(value), ..self }),
    {
        let mut r = self;
        r.name = Some(value);
        r
    }

    pub fn description(self, value: Matcher) -> (r: Self)
        ensures
            r == (Self { description: Some(value), ..self }),
    {
        let mut r = self;
        r.description = Some(value);
        r
    }
}

} // verus!
