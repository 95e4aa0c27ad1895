use ustreamer_bridge::topic::TopicDescriptor;

#[test]
fn empty_descriptor_names_nothing() {
    let topic = TopicDescriptor::new();
    assert_eq!(topic.authority(), &None);
    assert_eq!(topic.entity(), &None);
    assert_eq!(topic.resource(), &None);
    assert!(!topic.is_dispatchable());
}

#[test]
fn builders_set_one_part_each() {
    let topic = TopicDescriptor::new()
        .with_authority("vehicle".to_string())
        .with_entity("body".to_string())
        .with_resource("door".to_string());
    assert_eq!(topic.authority(), &Some("vehicle".to_string()));
    assert_eq!(topic.entity(), &Some("body".to_string()));
    assert_eq!(topic.resource(), &Some("door".to_string()));
    assert!(topic.is_dispatchable());
}

#[test]
fn dispatchable_needs_entity_and_resource() {
    let entity_only = TopicDescriptor::new().with_entity("body".to_string());
    assert!(!entity_only.is_dispatchable());
    let resource_only = TopicDescriptor::new().with_resource("door".to_string());
    assert!(!resource_only.is_dispatchable());
    let both = TopicDescriptor::new().with_entity("body".to_string()).with_resource("door".to_string());
    assert!(both.is_dispatchable());
    let with_authority_only = TopicDescriptor::new().with_authority("vehicle".to_string());
    assert!(!with_authority_only.is_dispatchable());
}

#[test]
fn empty_names_count_as_missing() {
    let empty_entity =
        TopicDescriptor::new().with_entity(String::new()).with_resource("door".to_string());
    assert!(!empty_entity.is_dispatchable());
    let empty_resource =
        TopicDescriptor::new().with_entity("body".to_string()).with_resource(String::new());
    assert!(!empty_resource.is_dispatchable());
}

#[test]
fn same_as_compares_all_parts() {
    let topic = TopicDescriptor::new().with_entity("body".to_string()).with_resource("door".to_string());
    assert!(topic.same_as(&topic.duplicate()));
    assert!(!topic.same_as(&TopicDescriptor::new().with_entity("body".to_string())));
    assert!(!topic.same_as(&topic.duplicate().with_authority("vehicle".to_string())));
    assert!(!topic.same_as(&topic.duplicate().with_resource("window".to_string())));
    assert!(!TopicDescriptor::new()
        .with_entity(String::new())
        .same_as(&TopicDescriptor::new()));
}
