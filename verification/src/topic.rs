//! Topic descriptors: the addresses that dispatching is switched on and off
//! for.

use vstd::prelude::*;

verus! {

/// The text of an optional name.
pub open spec fn text_of(name: Option<String>) -> Option<Seq<char>> {
    match name {
        Some(text) => Some(text@),
        None => None,
    }
}

/// Whether an optional name is there and not empty.
pub open spec fn present(name: Option<Seq<char>>) -> bool {
    match name {
        Some(text) => text.len() > 0,
        None => false,
    }
}

/// What a topic descriptor says, as plain text.
pub struct TopicView {
    pub authority: Option<Seq<char>>,
    pub entity: Option<Seq<char>>,
    pub resource: Option<Seq<char>>,
}

impl TopicView {
    /// A topic can be dispatched only if it names both an entity and a
    /// resource; the authority is optional.
    pub open spec fn dispatchable(self) -> bool {
        present(self.entity) && present(self.resource)
    }
}

/// The address of a resource within an entity, optionally scoped by an
/// authority.
#[derive(Debug)]
pub struct TopicDescriptor {
    authority: Option<String>,
    entity: Option<String>,
    resource: Option<String>,
}

impl View for TopicDescriptor {
    type V = TopicView;

    closed spec fn view(&self) -> TopicView {
        TopicView {
            authority: text_of(self.authority),
            entity: text_of(self.entity),
            resource: text_of(self.resource),
        }
    }
}

fn copy_name(name: &Option<String>) -> (copy: Option<String>)
    ensures
        text_of(copy) == text_of(*name),
{
    match name {
        Some(text) => Some(text.clone()),
        None => None,
    }
}

fn same_name(left: &Option<String>, right: &Option<String>) -> (same: bool)
    ensures
        same == (text_of(*left) == text_of(*right)),
{
    match (left, right) {
        (Some(a), Some(b)) => *a == *b,
        (None, None) => true,
        _ => false,
    }
}

fn name_present(name: &Option<String>) -> (there: bool)
    ensures
        there == present(text_of(*name)),
{
    match name {
        Some(text) => !text.as_str().is_empty(),
        None => false,
    }
}

impl TopicDescriptor {
    /// The descriptor that names nothing.
    pub fn new() -> (topic: TopicDescriptor)
        ensures
            topic@ == (TopicView { authority: None, entity: None, resource: None }),
            !topic@.dispatchable(),
    {
        TopicDescriptor { authority: None, entity: None, resource: None }
    }

    /// This descriptor, scoped by the given authority.
    pub fn with_authority(self, name: String) -> (topic: TopicDescriptor)
        ensures
            topic@ == (TopicView { authority: Some(name@), ..self@ }),
    {
        TopicDescriptor { authority: Some(name), entity: self.entity, resource: self.resource }
    }

    /// This descriptor, within the given entity.
    pub fn with_entity(self, name: String) -> (topic: TopicDescriptor)
        ensures
            topic@ == (TopicView { entity: Some(name@), ..self@ }),
    {
        TopicDescriptor { authority: self.authority, entity: Some(name), resource: self.resource }
    }

    /// This descriptor, addressing the given resource.
    pub fn with_resource(self, name: String) -> (topic: TopicDescriptor)
        ensures
            topic@ == (TopicView { resource: Some(name@), ..self@ }),
    {
        TopicDescriptor { authority: self.authority, entity: self.entity, resource: Some(name) }
    }

    /// The authority, if the descriptor has one.
    pub fn authority(&self) -> (name: &Option<String>)
        ensures
            text_of(*name) == self@.authority,
    {
        &self.authority
    }

    /// The entity name, if the descriptor has one.
    pub fn entity(&self) -> (name: &Option<String>)
        ensures
            text_of(*name) == self@.entity,
    {
        &self.entity
    }

    /// The resource name, if the descriptor has one.
    pub fn resource(&self) -> (name: &Option<String>)
        ensures
            text_of(*name) == self@.resource,
    {
        &self.resource
    }

    /// Whether dispatching can be switched for this topic.
    pub fn is_dispatchable(&self) -> (yes: bool)
        ensures
            yes == self@.dispatchable(),
    {
        name_present(&self.entity) && name_present(&self.resource)
    }

    /// Whether both descriptors are the same address.
    pub fn same_as(&self, other: &TopicDescriptor) -> (same: bool)
        ensures
            same == (self@ == other@),
    {
        same_name(&self.authority, &other.authority) && same_name(&self.entity, &other.entity)
            && same_name(&self.resource, &other.resource)
    }

    /// A second descriptor of the same address.
    pub fn duplicate(&self) -> (copy: TopicDescriptor)
        ensures
            copy@ == self@,
    {
        TopicDescriptor {
            authority: copy_name(&self.authority),
            entity: copy_name(&self.entity),
            resource: copy_name(&self.resource),
        }
    }
}

} // verus!
