use protofish::context::Context;
use protofish::decode::Value;

use schema_registry_converter::closure::{ClosureBuilder, ClosureStep, RegisteredSchema, SchemaReference};
use schema_registry_converter::decoder::{
    DecodedOutcome, DecodedValue, Decoding, DecodingWithContext, FetchOutcome, PoolOutcome,
    ProtoDecoder, RegistryRequest,
};

fn heartbeat_schema() -> &'static str {
    "syntax = \"proto3\"; package nl.openweb.data; message Heartbeat { uint64 beat = 1; }"
}

fn heartbeat_101() -> Vec<u8> {
    // magic 0, identifier 7 big-endian, index shorthand 0, field 1 varint 101
    vec![0, 0, 0, 0, 7, 0, 8, 101]
}

fn registered(schema: &str, references: Vec<SchemaReference>) -> RegisteredSchema {
    RegisteredSchema { schema: schema.to_owned(), references }
}

/// Answers the decoder's compile and decode steps with protofish, as an
/// application would, and hands back the first step that needs nothing else.
fn drive(step: Decoding) -> Decoding {
    let mut step = step;
    loop {
        step = match step {
            Decoding::Compile(job) => {
                let outcome = match Context::parse(job.files.iter().map(|s| s.as_str())) {
                    Ok(c) => PoolOutcome::Compiled(c),
                    Err(e) => PoolOutcome::Failed(format!("{}", e)),
                };
                ProtoDecoder::supply_pool(job, outcome)
            },
            Decoding::Decode(job) => {
                let m = job
                    .context
                    .context
                    .get_message(&job.full_name)
                    .unwrap()
                    .decode(&job.data_bytes, &job.context.context);
                ProtoDecoder::supply_decoded(job, DecodedOutcome::Decoded(m))
            },
            other => return other,
        };
    }
}

/// The context-returning twin of `drive`.
fn drive_ctx(decoder: &mut ProtoDecoder, step: DecodingWithContext) -> DecodingWithContext {
    let mut step = step;
    loop {
        step = match step {
            DecodingWithContext::Compile(job) => {
                let outcome = match Context::parse(job.files.iter().map(|s| s.as_str())) {
                    Ok(c) => PoolOutcome::Compiled(c),
                    Err(e) => PoolOutcome::Failed(format!("{}", e)),
                };
                decoder.supply_pool_with_context(job, outcome)
            },
            DecodingWithContext::Decode(job) => {
                let m = job
                    .context
                    .context
                    .get_message(&job.full_name)
                    .unwrap()
                    .decode(&job.data_bytes, &job.context.context);
                ProtoDecoder::supply_decoded_with_context(job, DecodedOutcome::Decoded(m))
            },
            other => return other,
        };
    }
}

#[test]
fn test_decoder_default() {
    let decoder = ProtoDecoder::new();
    let bytes = heartbeat_101();
    let step = decoder.decode(Some(&bytes));
    let task = match step {
        Decoding::Fetch(RegistryRequest::SchemaById(7), task) => task,
        other => panic!("expected a fetch of identifier 7, got {:?}", kind(&other)),
    };
    let mut decoder = decoder;
    let step = drive(decoder.resume(task, FetchOutcome::Schema(registered(heartbeat_schema(), vec![]))));
    let message = match step {
        Decoding::Value(DecodedValue::Message(m)) => m,
        other => panic!("expected a message, got {:?}", kind(&other)),
    };
    assert_eq!(Value::UInt64(101u64), message.fields[0].value);
}

#[test]
fn test_decode_with_context_default() {
    let mut decoder = ProtoDecoder::new();
    let bytes = heartbeat_101();
    let step = decoder.decode_with_context(Some(&bytes));
    let task = match step {
        DecodingWithContext::Fetch(RegistryRequest::SchemaById(7), task) => task,
        _ => panic!("expected a fetch of identifier 7"),
    };
    let step = decoder.resume_with_context(
        task,
        FetchOutcome::Schema(registered(heartbeat_schema(), vec![])),
    );
    let step = drive_ctx(&mut decoder, step);
    let result = match step {
        DecodingWithContext::Value(r) => r,
        _ => panic!("expected a decoded value"),
    };
    assert_eq!(Value::UInt64(101u64), result.value.fields[0].value);
    assert_eq!("nl.openweb.data.Heartbeat", result.full_name.as_str());
    assert_eq!(vec![8u8, 101u8], result.data_bytes);
    // The returned context can decode the payload again without the registry.
    let again = result.context.context.get_message(&result.full_name).unwrap().decode(
        &result.data_bytes,
        &result.context.context,
    );
    assert_eq!(Value::UInt64(101u64), again.fields[0].value);

    // A second decode is served from the context cache, with no fetch.
    let second = decoder.decode_with_context(Some(&bytes));
    match drive_ctx(&mut decoder, second) {
        DecodingWithContext::Value(r) => {
            assert_eq!(Value::UInt64(101u64), r.value.fields[0].value);
        },
        _ => panic!("expected a value straight from the context cache"),
    }
}

#[test]
fn test_decoder_cache() {
    let mut decoder = ProtoDecoder::new();
    let bytes = heartbeat_101();

    // A failing fetch produces a fresh error and poisons the identifier.
    let task = match decoder.decode(Some(&bytes)) {
        Decoding::Fetch(_, task) => task,
        _ => panic!("expected a fetch"),
    };
    let error = match decoder.resume(task, FetchOutcome::Failed(true, "connection refused".to_owned())) {
        Decoding::Failure(e) => e,
        _ => panic!("expected a failure"),
    };
    assert!(!error.cached);
    assert!(error.retriable);

    // The second decode replays the cached error without asking the registry.
    let error = match decoder.decode(Some(&bytes)) {
        Decoding::Failure(e) => e,
        _ => panic!("expected the cached failure"),
    };
    assert!(error.cached);
    assert!(error.retriable);

    // After clearing the error cache, the registry is consulted again.
    decoder.remove_errors_from_cache();
    let task = match decoder.decode(Some(&bytes)) {
        Decoding::Fetch(RegistryRequest::SchemaById(7), task) => task,
        _ => panic!("expected a fetch after clearing errors"),
    };
    let step = drive(decoder.resume(task, FetchOutcome::Schema(registered(heartbeat_schema(), vec![]))));
    let message = match step {
        Decoding::Value(DecodedValue::Message(m)) => m,
        _ => panic!("expected a message"),
    };
    assert_eq!(Value::UInt64(101u64), message.fields[0].value);

    // The closure is now cached: decoding again completes with no fetch.
    let message = match drive(decoder.decode(Some(&bytes))) {
        Decoding::Value(DecodedValue::Message(m)) => m,
        _ => panic!("expected a message straight from the cache"),
    };
    assert_eq!(Value::UInt64(101u64), message.fields[0].value);
}

#[test]
fn test_decoder_complex() {
    let result_proto = "syntax = \"proto3\"; package org.testapp.result; message Result { string status = 1; }";
    let root_proto = "syntax = \"proto3\"; package org.testapp; import \"result.proto\"; message ProtoTest { org.testapp.result.Result result = 1; int64 counter = 2; }";
    // magic 0, identifier 6 big-endian, index shorthand 0, field 2 varint 1
    let bytes = vec![0u8, 0, 0, 0, 6, 0, 0x10, 0x01];
    let mut decoder = ProtoDecoder::new();
    let task = match decoder.decode(Some(&bytes)) {
        Decoding::Fetch(RegistryRequest::SchemaById(6), task) => task,
        _ => panic!("expected a fetch of identifier 6"),
    };
    let reference = SchemaReference {
        name: "result.proto".to_owned(),
        subject: "result.proto".to_owned(),
        version: 1,
    };
    let step = decoder.resume(task, FetchOutcome::Schema(registered(root_proto, vec![reference])));
    let task = match step {
        Decoding::Fetch(RegistryRequest::SchemaBySubject(subject, 1), task) => {
            assert_eq!("result.proto", subject.as_str());
            task
        },
        _ => panic!("expected a fetch of the referenced subject"),
    };
    let step = drive(decoder.resume(task, FetchOutcome::Schema(registered(result_proto, vec![]))));
    let message = match step {
        Decoding::Value(DecodedValue::Message(m)) => m,
        _ => panic!("expected a message"),
    };
    assert_eq!(Value::Int64(1), message.fields[0].value);
}

#[test]
fn null_input_yields_empty_bytes_and_none() {
    let decoder = ProtoDecoder::new();
    match decoder.decode(None) {
        Decoding::Value(DecodedValue::Bytes(b)) => assert!(b.is_empty()),
        _ => panic!("expected an empty bytes value"),
    }
    let mut decoder = decoder;
    match decoder.decode_with_context(None) {
        DecodingWithContext::Null => {},
        _ => panic!("expected no result for null input"),
    }
}

#[test]
fn malformed_framing_is_returned_verbatim_and_never_cached() {
    let mut decoder = ProtoDecoder::new();
    let garbage = vec![1u8, 2, 3];
    match decoder.decode(Some(&garbage)) {
        Decoding::Value(DecodedValue::Bytes(b)) => assert_eq!(garbage, b),
        _ => panic!("expected the original bytes back"),
    }
    match decoder.decode_with_context(Some(&garbage)) {
        DecodingWithContext::Failure(e) => {
            assert!(!e.retriable);
            assert!(!e.cached);
        },
        _ => panic!("expected an invalid-payload failure"),
    }
    // The error cache stayed empty: a later framed payload still fetches.
    let bytes = heartbeat_101();
    match decoder.decode(Some(&bytes)) {
        Decoding::Fetch(RegistryRequest::SchemaById(7), _) => {},
        _ => panic!("expected a fetch, not a cached error"),
    }
}

#[test]
fn reference_chain_linearizes_dependency_first() {
    let b_text = "syntax = \"proto3\"; package chain.b; message Leaf { int32 x = 1; }";
    let a_text = "syntax = \"proto3\"; package chain.a; import \"b.proto\"; message Mid { chain.b.Leaf leaf = 1; }";
    let root_text = "syntax = \"proto3\"; package chain; import \"a.proto\"; message Root { chain.a.Mid mid = 1; }";
    let ref_a = SchemaReference { name: "a.proto".to_owned(), subject: "a".to_owned(), version: 1 };
    let ref_b = SchemaReference { name: "b.proto".to_owned(), subject: "b".to_owned(), version: 1 };

    let builder = ClosureBuilder::start(registered(root_text, vec![ref_a]));
    let (reference, builder) = match builder.step() {
        ClosureStep::Fetch(r, b) => (r, b),
        ClosureStep::Done(_) => panic!("expected a fetch of a"),
    };
    assert_eq!("a", reference.subject.as_str());
    let builder = builder.supply(registered(a_text, vec![ref_b]));
    let (reference, builder) = match builder.step() {
        ClosureStep::Fetch(r, b) => (r, b),
        ClosureStep::Done(_) => panic!("expected a fetch of b"),
    };
    assert_eq!("b", reference.subject.as_str());
    let builder = builder.supply(registered(b_text, vec![]));
    let closure = match builder.step() {
        ClosureStep::Done(texts) => texts,
        ClosureStep::Fetch(_, _) => panic!("expected the finished closure"),
    };
    assert_eq!(vec![b_text.to_owned(), a_text.to_owned(), root_text.to_owned()], closure);

    // Decoding a root message whose field type is declared two references deep
    // succeeds against the merged context.
    let mut decoder = ProtoDecoder::new();
    // magic 0, identifier 9, shorthand index, field 1: nested Mid { leaf: Leaf { x: 5 } }
    let payload = vec![0u8, 0, 0, 0, 9, 0, 0x0a, 4, 0x0a, 2, 0x08, 5];
    let task = match decoder.decode(Some(&payload)) {
        Decoding::Fetch(RegistryRequest::SchemaById(9), task) => task,
        _ => panic!("expected a fetch of identifier 9"),
    };
    let ref_a = SchemaReference { name: "a.proto".to_owned(), subject: "a".to_owned(), version: 1 };
    let ref_b = SchemaReference { name: "b.proto".to_owned(), subject: "b".to_owned(), version: 1 };
    let step = decoder.resume(task, FetchOutcome::Schema(registered(root_text, vec![ref_a])));
    let task = match step {
        Decoding::Fetch(RegistryRequest::SchemaBySubject(_, _), task) => task,
        _ => panic!("expected a fetch of a"),
    };
    let step = decoder.resume(task, FetchOutcome::Schema(registered(a_text, vec![ref_b])));
    let task = match step {
        Decoding::Fetch(RegistryRequest::SchemaBySubject(_, _), task) => task,
        _ => panic!("expected a fetch of b"),
    };
    let message = match drive(decoder.resume(task, FetchOutcome::Schema(registered(b_text, vec![])))) {
        Decoding::Value(DecodedValue::Message(m)) => m,
        _ => panic!("expected a message"),
    };
    let mid = match &message.fields[0].value {
        Value::Message(m) => m,
        _ => panic!("expected a nested message"),
    };
    let leaf = match &mid.fields[0].value {
        Value::Message(m) => m,
        _ => panic!("expected the leaf message"),
    };
    assert_eq!(Value::Int32(5), leaf.fields[0].value);
}

#[test]
fn round_trip_through_encode_and_decode() {
    let schema = "syntax = \"proto3\"; package trip; message Point { sint32 x = 1; sint32 y = 2; repeated string tags = 3; message Label { string text = 1; } Label label = 4; }";
    let ctx = Context::parse(&[schema]).unwrap();
    let point = ctx.get_message("trip.Point").unwrap();
    let label = ctx.get_message("trip.Point.Label").unwrap();
    let original = protofish::decode::MessageValue {
        msg_ref: point.self_ref,
        fields: vec![
            protofish::decode::FieldValue { number: 1, value: Value::SInt32(-7) },
            protofish::decode::FieldValue { number: 2, value: Value::SInt32(42) },
            protofish::decode::FieldValue { number: 3, value: Value::String("north".to_owned()) },
            protofish::decode::FieldValue { number: 3, value: Value::String("east".to_owned()) },
            protofish::decode::FieldValue {
                number: 4,
                value: Value::Message(Box::new(protofish::decode::MessageValue {
                    msg_ref: label.self_ref,
                    fields: vec![protofish::decode::FieldValue {
                        number: 1,
                        value: Value::String("hi".to_owned()),
                    }],
                    garbage: None,
                })),
            },
        ],
        garbage: None,
    };
    let encoded = original.encode(&ctx);

    // Frame it for identifier 3 with the shorthand index path and decode.
    let mut bytes = vec![0u8, 0, 0, 0, 3, 0];
    bytes.extend_from_slice(&encoded);
    let mut decoder = ProtoDecoder::new();
    let task = match decoder.decode(Some(&bytes)) {
        Decoding::Fetch(_, task) => task,
        _ => panic!("expected a fetch"),
    };
    let decoded = match drive(decoder.resume(task, FetchOutcome::Schema(registered(schema, vec![])))) {
        Decoding::Value(DecodedValue::Message(m)) => m,
        _ => panic!("expected a message"),
    };
    assert_eq!(original.fields.len(), decoded.fields.len());
    assert_eq!(original.fields[0].value, decoded.fields[0].value);
    assert_eq!(original.fields[1].value, decoded.fields[1].value);
    assert_eq!(original.fields[2].value, decoded.fields[2].value);
    assert_eq!(original.fields[3].value, decoded.fields[3].value);
    match (&original.fields[4].value, &decoded.fields[4].value) {
        (Value::Message(a), Value::Message(b)) => {
            assert_eq!(a.fields[0].value, b.fields[0].value);
        },
        _ => panic!("expected nested messages on both sides"),
    }
}

#[test]
fn context_build_failure_is_not_cached() {
    let mut decoder = ProtoDecoder::new();
    let bytes = heartbeat_101();
    let task = match decoder.decode(Some(&bytes)) {
        Decoding::Fetch(_, task) => task,
        _ => panic!("expected a fetch"),
    };
    // A schema text the descriptor pool cannot compile fails non-retryably.
    let step = drive(decoder.resume(task, FetchOutcome::Schema(registered("message {", vec![]))));
    match step {
        Decoding::Failure(e) => {
            assert!(!e.retriable);
            assert!(!e.cached);
        },
        _ => panic!("expected a compilation failure"),
    }
}

fn kind(step: &Decoding) -> &'static str {
    match step {
        Decoding::Value(DecodedValue::Bytes(_)) => "bytes value",
        Decoding::Value(DecodedValue::Message(_)) => "message value",
        Decoding::Failure(_) => "failure",
        Decoding::Fetch(_, _) => "fetch",
        Decoding::Compile(_) => "compile step",
        Decoding::Decode(_) => "decode step",
    }
}

#[test]
fn missing_schema_failure_is_not_retryable() {
    let mut decoder = ProtoDecoder::new();
    let bytes = heartbeat_101();
    let task = match decoder.decode(Some(&bytes)) {
        Decoding::Fetch(_, task) => task,
        _ => panic!("expected a fetch"),
    };
    let step = decoder.resume(task, FetchOutcome::Failed(false, "schema not found".to_owned()));
    let error = match step {
        Decoding::Failure(e) => e,
        _ => panic!("expected a failure"),
    };
    assert!(!error.retriable);
    assert!(!error.cached);
    assert_eq!(Some("schema not found".to_owned()), error.cause);
    // The replay keeps the retryability of the cause.
    let error = match decoder.decode(Some(&bytes)) {
        Decoding::Failure(e) => e,
        _ => panic!("expected the cached failure"),
    };
    assert!(!error.retriable);
    assert!(error.cached);
}

#[test]
fn out_of_range_index_path_fails_without_retry() {
    let mut decoder = ProtoDecoder::new();
    // magic 0, identifier 7, explicit path [5]: count varint 2 (zigzag of 1),
    // index varint 10 (zigzag of 5), then one payload byte
    let bytes = vec![0u8, 0, 0, 0, 7, 2, 10, 0];
    let task = match decoder.decode(Some(&bytes)) {
        Decoding::Fetch(_, task) => task,
        _ => panic!("expected a fetch"),
    };
    let step = drive(decoder.resume(task, FetchOutcome::Schema(registered(heartbeat_schema(), vec![]))));
    let error = match step {
        Decoding::Failure(e) => e,
        _ => panic!("expected a name resolution failure"),
    };
    assert!(!error.retriable);
    assert!(!error.cached);
}

#[test]
fn compile_failure_comes_back_fresh_with_its_cause() {
    // The caller performs the descriptor-pool compile; a failure it reports
    // is returned fresh and non-retryable, carrying the compile's message.
    let mut decoder = ProtoDecoder::new();
    let bytes = heartbeat_101();
    let task = match decoder.decode(Some(&bytes)) {
        Decoding::Fetch(_, task) => task,
        _ => panic!("expected a fetch"),
    };
    let step = decoder.resume(task, FetchOutcome::Schema(registered(heartbeat_schema(), vec![])));
    let job = match step {
        Decoding::Compile(job) => job,
        _ => panic!("expected a compile step"),
    };
    let step = ProtoDecoder::supply_pool(job, PoolOutcome::Failed("field number out of range".to_owned()));
    let error = match step {
        Decoding::Failure(e) => e,
        _ => panic!("expected a failure"),
    };
    assert!(!error.retriable);
    assert!(!error.cached);
    assert_eq!(Some("field number out of range".to_owned()), error.cause);
}

#[test]
fn fetch_failure_carries_its_cause() {
    let mut decoder = ProtoDecoder::new();
    let bytes = heartbeat_101();
    let task = match decoder.decode(Some(&bytes)) {
        Decoding::Fetch(_, task) => task,
        _ => panic!("expected a fetch"),
    };
    let error = match decoder.resume(task, FetchOutcome::Failed(true, "dns failure".to_owned())) {
        Decoding::Failure(e) => e,
        _ => panic!("expected a failure"),
    };
    assert_eq!("failed to fetch schema from registry", error.error);
    assert_eq!(Some("dns failure".to_owned()), error.cause);
}
