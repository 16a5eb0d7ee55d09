//! The ARIA role tables of the `aria_query` crate. Nothing here is proved:
//! each contract gives a name to what the crate's tables hold.
use vstd::prelude::*;
use aria_query::{AriaProperty, AriaRole, AriaRoleDefinitionKey, ELEMENT_ROLES, ROLES, ROLE_ELEMENTS};

verus! {

#[verifier::external_type_specification]
#[verifier::external_body]
pub struct ExAriaRole(aria_query::AriaRole);

#[verifier::external_type_specification]
#[verifier::external_body]
pub struct ExAriaRoleDefinitionKey(aria_query::AriaRoleDefinitionKey);

#[verifier::external_type_specification]
#[verifier::external_body]
pub struct ExAriaProperty(aria_query::AriaProperty);

/// One attribute that an element must have, or must not have, to imply a role.
pub struct ConceptAttribute {
    pub name: String,
    pub value: Option<String>,
    /// `undefined`: the attribute must be absent; `set`: it must not be empty.
    pub constraints: Vec<String>,
}

/// An element that implies a role: its tag name and what its attributes must
/// be.
pub struct RoleConcept {
    pub name: String,
    pub attributes: Vec<ConceptAttribute>,
}

/// An attribute of a concept, as its texts.
pub struct ConceptAttributeView {
    pub name: Seq<char>,
    pub value: Option<Seq<char>>,
    pub constraints: Seq<Seq<char>>,
}

/// A concept, as its texts.
pub struct RoleConceptView {
    pub name: Seq<char>,
    pub attributes: Seq<ConceptAttributeView>,
}

/// The texts of the strings.
pub open spec fn texts(strings: Seq<String>) -> Seq<Seq<char>> {
    strings.map_values(|s: String| s@)
}

impl View for ConceptAttribute {
    type V = ConceptAttributeView;

    open spec fn view(&self) -> ConceptAttributeView {
        ConceptAttributeView {
            name: self.name@,
            value: match self.value {
                Some(value) => Some(value@),
                None => None,
            },
            constraints: texts(self.constraints@),
        }
    }
}

impl View for RoleConcept {
    type V = RoleConceptView;

    open spec fn view(&self) -> RoleConceptView {
        RoleConceptView {
            name: self.name@,
            attributes: self.attributes@.map_values(|a: ConceptAttribute| a@),
        }
    }
}

/// The name of a role, as it is written in a `role` attribute.
pub uninterp spec fn aria_role_name(role: AriaRole) -> Seq<char>;

/// The key under which the tables hold a role.
pub uninterp spec fn aria_role_key(role: AriaRole) -> AriaRoleDefinitionKey;

/// The name of a key.
pub uninterp spec fn aria_key_name(key: AriaRoleDefinitionKey) -> Seq<char>;

/// The key that a name stands for.
pub uninterp spec fn aria_key_named(name: Seq<char>) -> Option<AriaRoleDefinitionKey>;

/// The ARIA property that a name such as `aria-checked` stands for.
pub uninterp spec fn aria_property_named(name: Seq<char>) -> Option<AriaProperty>;

/// Whether the definition of a role lists a property; `None` where the table
/// of roles does not hold the role.
pub uninterp spec fn aria_role_property(role: AriaRole, property: AriaProperty) -> Option<bool>;

/// The tag names of the elements that imply a role, in the table's order.
pub uninterp spec fn aria_role_elements(role: AriaRole) -> Seq<Seq<char>>;

/// The entry at a position of the table from elements to roles.
pub uninterp spec fn aria_element_role(index: nat) -> Option<
    (RoleConceptView, Seq<AriaRoleDefinitionKey>),
>;

/// `Display` of `aria_query::AriaRole`.
#[verifier::external_body]
pub(crate) fn role_name(role: AriaRole) -> (name: String)
    ensures
        name@ == aria_role_name(role),
{
    role.to_string()
}

/// `From<AriaRole>` of `aria_query::AriaRoleDefinitionKey`.
#[verifier::external_body]
pub(crate) fn role_key(role: AriaRole) -> (key: AriaRoleDefinitionKey)
    ensures
        key == aria_role_key(role),
{
    role.into()
}

/// `Display` of `aria_query::AriaRoleDefinitionKey`.
#[verifier::external_body]
pub(crate) fn key_name(key: AriaRoleDefinitionKey) -> (name: String)
    ensures
        name@ == aria_key_name(key),
{
    key.to_string()
}

/// `FromStr` of `aria_query::AriaRoleDefinitionKey`.
#[verifier::external_body]
pub(crate) fn key_named(name: &str) -> (key: Option<AriaRoleDefinitionKey>)
    ensures
        key == aria_key_named(name@),
{
    name.parse().ok()
}

/// `FromStr` of `aria_query::AriaProperty`.
#[verifier::external_body]
pub(crate) fn property_named(name: &str) -> (property: Option<AriaProperty>)
    ensures
        property == aria_property_named(name@),
{
    name.parse().ok()
}

/// `aria_query::ROLES`: looks the role up and says whether its `props` hold
/// the property.
#[verifier::external_body]
pub(crate) fn role_property(role: AriaRole, property: AriaProperty) -> (listed: Option<bool>)
    ensures
        listed == aria_role_property(role, property),
{
    ROLES.get(&role.into()).map(|definition| definition.props.contains_key(&property))
}

/// `aria_query::ROLE_ELEMENTS`: the names of the concepts listed for the role,
/// none where the role is not listed.
#[verifier::external_body]
pub(crate) fn role_elements(role: AriaRole) -> (names: Vec<String>)
    ensures
        texts(names@) == aria_role_elements(role),
{
    ROLE_ELEMENTS.get(&role.into()).into_iter().flatten().map(|c| c.name.clone()).collect()
}

/// An entry of the table from elements to roles, as its texts.
pub open spec fn entry_view(entry: Option<(RoleConcept, Vec<AriaRoleDefinitionKey>)>) -> Option<
    (RoleConceptView, Seq<AriaRoleDefinitionKey>),
> {
    match entry {
        Some((concept, roles)) => Some((concept@, roles@)),
        None => None,
    }
}

/// `aria_query::ELEMENT_ROLES`: the entry at `index` in the order of
/// insertion, `None` past the last.
#[verifier::external_body]
pub(crate) fn element_role(index: usize) -> (entry: Option<(RoleConcept, Vec<AriaRoleDefinitionKey>)>)
    ensures
        entry_view(entry) == aria_element_role(index as nat),
{
    ELEMENT_ROLES.iter().nth(index).map(|(concept, roles)| {
        let attributes = concept.attributes.iter().flatten().map(|a| ConceptAttribute {
            name: a.name.clone(),
            value: a.value.clone(),
            constraints: a.constraints.iter().flatten().map(|c| c.to_string()).collect(),
        });
        (RoleConcept { name: concept.name.clone(), attributes: attributes.collect() }, roles.clone())
    })
}

} // verus!
