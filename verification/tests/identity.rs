use ustreamer_bridge::identity::{assemble, ClientIdentity};
use ustreamer_bridge::status::Status;

fn glue_bytes() -> Vec<u8> {
    let mut bytes = vec![0x0a, 14];
    bytes.extend_from_slice(b"ustreamer_glue");
    bytes.extend_from_slice(&[0x18, 1]);
    bytes
}

#[test]
fn identity_keeps_its_parts() {
    let identity = ClientIdentity::new("org.example".to_string(), "glue".to_string(), 3);
    assert_eq!(identity.package_name(), "org.example");
    assert_eq!(identity.entity_name(), "glue");
    assert_eq!(identity.version_major(), 3);
    assert!(identity.is_valid());
    assert!(identity.is_encodable());
    let copy = identity.duplicate();
    assert_eq!(copy.package_name(), "org.example");
    assert_eq!(copy.entity_name(), "glue");
    assert_eq!(copy.version_major(), 3);
}

#[test]
fn encode_frames_name_then_version() {
    let identity = ClientIdentity::new(
        "org.eclipse.uprotocol.core.ustreamer".to_string(),
        "ustreamer_glue".to_string(),
        1,
    );
    assert_eq!(identity.encode().unwrap(), glue_bytes());
}

#[test]
fn encoded_size_is_length_of_message() {
    let identity = ClientIdentity::new("p".to_string(), "ustreamer_glue".to_string(), 1);
    assert_eq!(identity.encoded_size(), Some(18));
    assert_eq!(identity.encode().unwrap().len(), 18);
    let wide = ClientIdentity::new("p".to_string(), "x".repeat(200), 300);
    let bytes = wide.encode().unwrap();
    assert_eq!(wide.encoded_size(), Some(bytes.len() as u64));
    assert_eq!(bytes.len(), 1 + 2 + 200 + 1 + 2);
    assert_eq!(&bytes[..3], &[0x0a, 0xc8, 0x01]);
    assert_eq!(&bytes[203..], &[0x18, 0xac, 0x02]);
}

#[test]
fn encode_counts_bytes_not_characters() {
    let identity = ClientIdentity::new("p".to_string(), "\u{e9}t\u{e9}".to_string(), 0);
    let bytes = identity.encode().unwrap();
    assert_eq!(bytes, vec![0x0a, 5, 0xc3, 0xa9, b't', 0xc3, 0xa9, 0x18, 0]);
    assert_eq!(identity.encoded_size(), Some(9));
}

#[test]
fn encode_leaves_out_empty_name() {
    let nameless = ClientIdentity::new("p".to_string(), String::new(), 2);
    assert!(!nameless.is_valid());
    assert_eq!(nameless.encode().unwrap(), vec![0x18, 2]);
    assert_eq!(nameless.encoded_size(), Some(2));
}

#[test]
fn encode_writes_largest_version() {
    let identity = ClientIdentity::new("p".to_string(), "a".to_string(), u32::MAX);
    assert_eq!(
        identity.encode().unwrap(),
        vec![0x0a, 1, b'a', 0x18, 0xff, 0xff, 0xff, 0xff, 0x0f]
    );
    assert_eq!(identity.encoded_size(), Some(9));
}

#[test]
fn encoded_message_parses_back() {
    let identity = ClientIdentity::new("p".to_string(), "ustreamer_glue".to_string(), 1);
    let bytes = identity.encode().unwrap();
    let mut input = protobuf::CodedInputStream::from_bytes(&bytes);
    assert_eq!(input.read_raw_varint32().unwrap(), (1 << 3) | 2);
    assert_eq!(input.read_string().unwrap(), "ustreamer_glue");
    assert_eq!(input.read_raw_varint32().unwrap(), 3 << 3);
    assert_eq!(input.read_uint32().unwrap(), 1);
    assert!(input.eof().unwrap());
}

#[test]
fn assemble_joins_fields() {
    let message = assemble::<()>(Some(Ok(vec![1, 2])), Ok(vec![3]));
    assert_eq!(message, Ok(vec![1, 2, 3]));
    let without_name = assemble::<()>(None, Ok(vec![3]));
    assert_eq!(without_name, Ok(vec![3]));
}

#[test]
fn assemble_fails_with_a_field() {
    assert_eq!(assemble(Some(Err(())), Ok(vec![3])), Err(Status::MalformedIdentity));
    assert_eq!(assemble(Some(Ok(vec![1])), Err(())), Err(Status::MalformedIdentity));
    assert_eq!(assemble(None, Err(())), Err(Status::MalformedIdentity));
}
