use open62541::ua::status_code::Severity;
use open62541::ua::{
    ArrayValue, AttributeId, ByteString, ExpandedNodeId, Identifier, NodeId, NodeIdType,
    StatusCode,
};
use open62541::Error;

#[test]
fn byte_string_keeps_three_states_apart() {
    let invalid = ByteString::invalid();
    let empty = ByteString::new(vec![]);
    let regular = ByteString::new(vec![1, 2, 3]);

    assert!(invalid.is_invalid());
    assert!(!invalid.is_empty());
    assert_eq!(invalid.as_bytes(), None);

    assert!(!empty.is_invalid());
    assert!(empty.is_empty());
    assert_eq!(empty.as_bytes(), Some(&[][..]));

    assert!(!regular.is_invalid());
    assert!(!regular.is_empty());
    assert_eq!(regular.as_bytes(), Some(&[1u8, 2, 3][..]));
    assert!(matches!(regular.array_value(), ArrayValue::Valid(bytes) if bytes == [1u8, 2, 3]));
}

#[test]
fn numeric_node_id_has_numeric_type() {
    let node_id = NodeId::numeric(0, 2258);
    assert_eq!(node_id.namespace_index(), 0);
    assert_eq!(*node_id.identifier_type(), NodeIdType::Numeric);
}

#[test]
fn string_node_id_has_string_type() {
    let node_id = NodeId::string(2, "Boiler");
    assert_eq!(node_id.namespace_index(), 2);
    assert_eq!(*node_id.identifier_type(), NodeIdType::String);
}

#[test]
fn numeric_expanded_node_id_is_local() {
    let expanded = ExpandedNodeId::numeric(1, 1773);
    assert_eq!(expanded.server_index(), 0);
    assert!(expanded.namespace_uri().is_invalid());
    assert_eq!(expanded.node_id().namespace_index(), 1);
    assert_eq!(*expanded.node_id().identifier_type(), NodeIdType::Numeric);
}

#[test]
fn verify_good_passes_good_and_fails_the_rest() {
    assert_eq!(Error::verify_good(&StatusCode::new(0)), Ok(()));
    assert_eq!(Error::verify_good(&StatusCode::new(0x3FFF_FFFF)), Ok(()));
    assert_eq!(
        Error::verify_good(&StatusCode::new(0x4000_0000)),
        Err(Error::ServiceFailure(StatusCode::new(0x4000_0000)))
    );
    assert_eq!(
        Error::verify_good(&StatusCode::new(0x80AD_0000)),
        Err(Error::ServiceFailure(StatusCode::new(0x80AD_0000)))
    );
}

#[test]
fn severity_is_read_from_the_two_top_bits() {
    for (raw, severity) in [
        (0x0000_0000, Severity::Good),
        (0x0030_0000, Severity::Good),
        (0x3FFF_FFFF, Severity::Good),
        (0x4000_0000, Severity::Uncertain),
        (0x7FFF_FFFF, Severity::Uncertain),
        (0x8000_0000, Severity::Bad),
        (0x80AD_0000, Severity::Bad),
        (0xFFFF_FFFF, Severity::Bad),
    ] {
        let status = StatusCode::new(raw);
        assert_eq!(status.into_raw(), raw);
        assert_eq!(status.severity(), severity);
        assert_eq!(status.is_good(), severity == Severity::Good);
        assert_eq!(status.is_uncertain(), severity == Severity::Uncertain);
        assert_eq!(status.is_bad(), severity == Severity::Bad);
    }
    assert!(StatusCode::good_status().is_good());
}

#[test]
fn error_names_its_status_only_for_service_failures() {
    let status = StatusCode::new(0x8034_0000);
    assert_eq!(Error::new(status), Error::ServiceFailure(status));
    assert_eq!(Error::new(status).status_code(), Some(status));
    assert_eq!(Error::internal(), Error::InternalInvariantViolation);
    assert_eq!(Error::internal().status_code(), None);
    assert_eq!(Error::LockFailure.status_code(), None);
    assert_eq!(Error::DetachedParent.status_code(), None);
}

#[test]
fn string_keeps_three_states_apart() {
    let invalid = open62541::ua::String::invalid();
    let empty = open62541::ua::String::new("");
    let regular = open62541::ua::String::new("urn:example");

    assert!(invalid.is_invalid());
    assert_eq!(invalid.as_str(), None);
    assert!(!empty.is_invalid());
    assert_eq!(empty.as_str(), Some(""));
    assert_eq!(regular.as_str(), Some("urn:example"));
    assert_ne!(invalid, empty);
}

#[test]
fn array_value_tells_its_state() {
    assert!(ArrayValue::<u8>::Invalid.is_invalid());
    assert!(!ArrayValue::<u8>::Invalid.is_empty());
    assert!(ArrayValue::<u8>::Empty.is_empty());
    assert!(!ArrayValue::<u8>::Empty.is_invalid());
    assert!(!ArrayValue::Valid(1u8).is_invalid());
    assert!(!ArrayValue::Valid(1u8).is_empty());
    assert!(ByteString::invalid().array_value().is_invalid());
    assert!(ByteString::new(Vec::new()).array_value().is_empty());
}

#[test]
fn node_id_keeps_what_it_was_made_of() {
    assert_eq!(*NodeId::numeric(3, 7).identifier(), Identifier::Numeric(7));
    assert_eq!(*NodeId::string(3, "a=b").identifier(), Identifier::String("a=b".to_owned()));
    assert_eq!(*NodeId::string(3, "").identifier(), Identifier::String(String::new()));

    let guid = NodeId::new(1, Identifier::Guid(0x0123_4567_89AB_CDEF_0123_4567_89AB_CDEF));
    assert_eq!(*guid.identifier_type(), NodeIdType::Guid);
    let opaque = NodeId::new(1, Identifier::ByteString(ByteString::new(vec![0xDE, 0xAD])));
    assert_eq!(*opaque.identifier_type(), NodeIdType::ByteString);
    assert_ne!(NodeId::numeric(0, 1), NodeId::numeric(1, 1));
}

#[test]
fn expanded_node_id_keeps_its_parts() {
    let expanded = ExpandedNodeId::new(
        NodeId::string(0, "Pump"),
        open62541::ua::String::new("urn:plant"),
        4,
    );
    assert_eq!(*expanded.node_id(), NodeId::string(0, "Pump"));
    assert_eq!(expanded.namespace_uri().as_str(), Some("urn:plant"));
    assert_eq!(expanded.server_index(), 4);
}

#[test]
fn attribute_ids_have_their_protocol_numbers() {
    assert_eq!(AttributeId::node_id().raw, 1);
    assert_eq!(AttributeId::value().raw, 13);
    assert_eq!(AttributeId::data_type().raw, 14);
    assert_eq!(AttributeId::new(5).raw, 5);
}
