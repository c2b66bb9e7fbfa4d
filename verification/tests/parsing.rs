use schema_registry_converter::common::add_common_files;
use schema_registry_converter::error::SRCError;
use schema_registry_converter::framing::{get_bytes_result, BytesResult};
use schema_registry_converter::resolver::{resolve_name, MessageResolver};
use schema_registry_converter::schema_registry::{
    get_schema_by_id, get_schema_by_subject, get_subject, SubjectNameStrategy,
};
use schema_registry_converter::wire::to_index_and_data;

#[test]
fn framing_classifies_null_valid_and_invalid() {
    assert_eq!(BytesResult::Null, get_bytes_result(None));
    let framed = vec![0u8, 0, 0, 1, 2, 9, 9];
    match get_bytes_result(Some(&framed)) {
        BytesResult::Valid(id, rest) => {
            assert_eq!(258, id);
            assert_eq!(vec![9u8, 9], rest);
        },
        _ => panic!("expected valid framing"),
    }
    // A payload of exactly five bytes is framed with an empty remainder.
    match get_bytes_result(Some(&[0u8, 0, 0, 0, 7])) {
        BytesResult::Valid(7, rest) => assert!(rest.is_empty()),
        _ => panic!("expected valid framing with empty payload"),
    }
    // Wrong magic byte, and too-short input, both come back verbatim.
    assert_eq!(
        BytesResult::Invalid(vec![1u8, 0, 0, 0, 7, 1]),
        get_bytes_result(Some(&[1u8, 0, 0, 0, 7, 1]))
    );
    assert_eq!(BytesResult::Invalid(vec![0u8, 0, 0, 7]), get_bytes_result(Some(&[0u8, 0, 0, 7])));
}

#[test]
fn wire_envelope_shorthand_and_explicit_paths() {
    let (path, data) = to_index_and_data(&[0u8, 8, 101]).unwrap();
    assert_eq!(vec![0i32], path);
    assert_eq!(vec![8u8, 101], data);

    // Count 2, indexes 1 and 2, all zigzag varints.
    let (path, data) = to_index_and_data(&[4u8, 2, 4, 0xff]).unwrap();
    assert_eq!(vec![1i32, 2], path);
    assert_eq!(vec![0xffu8], data);

    // A multi-byte varint index: 300 encodes as zigzag 600 = [0xd8, 0x04].
    let (path, data) = to_index_and_data(&[2u8, 0xd8, 0x04]).unwrap();
    assert_eq!(vec![300i32], path);
    assert!(data.is_empty());
}

#[test]
fn wire_envelope_rejects_malformed_input() {
    assert!(to_index_and_data(&[]).is_err());
    // Unterminated varint.
    assert!(to_index_and_data(&[0x80u8]).is_err());
    // Count claims more indexes than there are bytes.
    assert!(to_index_and_data(&[8u8, 2]).is_err());
    // Negative count.
    assert!(to_index_and_data(&[1u8, 2, 2]).is_err());
    let e = to_index_and_data(&[0x80u8]).unwrap_err();
    assert!(!e.retriable);
    assert!(!e.cached);
}

#[test]
fn resolver_reads_structure_and_resolves_paths() {
    let schema = "syntax = \"proto3\";\npackage org.demo;\nimport \"google/protobuf/timestamp.proto\";\n// message in a comment is ignored\nmessage Outer {\n  string message = 1; /* field named message */\n  message Inner { int32 x = 1; }\n  enum Mode { A = 0; }\n}\nmessage Second { bool ok = 1; }\n";
    let resolver = MessageResolver::new(schema);
    assert_eq!(vec!["google/protobuf/timestamp.proto".to_owned()], resolver.imports);
    assert_eq!("org.demo.Outer", resolve_name(&resolver, &vec![0]).unwrap());
    assert_eq!("org.demo.Outer.Inner", resolve_name(&resolver, &vec![0, 0]).unwrap());
    assert_eq!("org.demo.Second", resolve_name(&resolver, &vec![1]).unwrap());
    assert!(resolve_name(&resolver, &vec![2]).is_err());
    assert!(resolve_name(&resolver, &vec![0, 1]).is_err());
    assert!(resolve_name(&resolver, &vec![-1]).is_err());
    assert!(resolve_name(&resolver, &vec![]).is_err());
}

#[test]
fn resolver_without_package_uses_bare_names() {
    let resolver = MessageResolver::new("syntax = \"proto3\"; message Solo { uint32 n = 1; }");
    assert_eq!("Solo", resolve_name(&resolver, &vec![0]).unwrap());
}

#[test]
fn common_files_follow_imports() {
    let resolver = MessageResolver::new(
        "syntax = \"proto3\"; import \"google/protobuf/timestamp.proto\"; message T { }",
    );
    let mut files: Vec<String> = Vec::new();
    add_common_files(&resolver.imports, &mut files);
    assert_eq!(1, files.len());
    assert!(files[0].contains("message Timestamp"));

    // No imports, nothing added.
    let mut files: Vec<String> = Vec::new();
    add_common_files(&Vec::new(), &mut files);
    assert!(files.is_empty());
}

#[test]
fn subject_name_strategies() {
    assert_eq!("record", get_subject(&SubjectNameStrategy::RecordNameStrategy("record")));
    assert_eq!("topic-key", get_subject(&SubjectNameStrategy::TopicNameStrategy("topic", true)));
    assert_eq!("topic-value", get_subject(&SubjectNameStrategy::TopicNameStrategy("topic", false)));
    assert_eq!(
        "topic-record",
        get_subject(&SubjectNameStrategy::TopicRecordNameStrategy("topic", "record"))
    );
}

#[test]
fn registry_responses_are_parsed() {
    let body = "{\"schema\": \"{\\\"type\\\": \\\"string\\\"}\", \"id\": 23}";
    let (_, id) = get_schema_by_subject(body).unwrap();
    assert_eq!(23, id);
    assert!(get_schema_by_id(7, body).is_ok());

    let err = get_schema_by_subject("not json").unwrap_err();
    assert!(err.starts_with("Invalid json string"));
    let err = get_schema_by_subject("{\"id\": 1}").unwrap_err();
    assert_eq!("Could not get raw schema from response", err);
    let err = get_schema_by_subject("{\"schema\": \"{\\\"type\\\": \\\"string\\\"}\"}").unwrap_err();
    assert_eq!("Could not get id from response", err);
    let err = get_schema_by_subject("{\"schema\": \"nonsense\"}").unwrap_err();
    assert!(err.starts_with("Could not parse schema"));
}

#[test]
fn errors_carry_their_flags() {
    let e = SRCError::new("boom", Some("cause".to_owned()), true);
    assert!(e.retriable);
    assert!(!e.cached);
    let c = e.clone().into_cache();
    assert!(c.cached);
    assert_eq!("boom", c.error);
    assert_eq!(Some("cause".to_owned()), c.cause);
    assert!(c.retriable);
}
