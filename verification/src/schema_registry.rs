use vstd::prelude::*;

verus! {

/// How the registry subject for a schema lookup is derived: from the record
/// name alone, from the topic (as key or value), or from topic and record
/// name together.
#[derive(Debug)]
pub enum SubjectNameStrategy<'a> {
    RecordNameStrategy(&'a str),
    TopicNameStrategy(&'a str, bool),
    TopicRecordNameStrategy(&'a str, &'a str),
}

/// The subject a strategy denotes: the record name itself; the topic with a
/// "-key" or "-value" suffix; or topic and record name joined with "-".
pub open spec fn subject_spec(s: SubjectNameStrategy) -> Seq<char> {
    match s {
        SubjectNameStrategy::RecordNameStrategy(rn) => rn@,
        SubjectNameStrategy::TopicNameStrategy(t, is_key) => {
            if is_key {
                t@ + "-key"@
            } else {
                t@ + "-value"@
            }
        },
        SubjectNameStrategy::TopicRecordNameStrategy(t, rn) => t@ + "-"@ + rn@,
    }
}

/// The subject under which the registry serves the schema, exactly as
/// `subject_spec` derives it.
pub fn get_subject(subject_name_strategy: &SubjectNameStrategy) -> (r: String)
    ensures
        r@ == subject_spec(*subject_name_strategy),
{
    match subject_name_strategy {
        SubjectNameStrategy::RecordNameStrategy(rn) => String::from_str(rn),
        SubjectNameStrategy::TopicNameStrategy(t, is_key) => {
            if *is_key {
                String::from_str(t).concat("-key")
            } else {
                String::from_str(t).concat("-value")
            }
        },
        SubjectNameStrategy::TopicRecordNameStrategy(t, rn) => String::from_str(t).concat(
            "-",
        ).concat(rn),
    }
}

#[verifier::external_type_specification]
#[verifier::external_body]
pub struct ExJsonValue(serde_json::Value);

#[verifier::external_type_specification]
#[verifier::external_body]
pub struct ExAvroSchema(avro_rs::schema::Schema);

/// The "schema" field of the body: `Some` exactly when the body parses as
/// JSON whose "schema" member is a string, then that string's characters.
/// A function of the body alone.
pub uninterp spec fn response_schema_text(body: Seq<char>) -> Option<Seq<char>>;

/// The "id" field of the body: `Some` exactly when the body parses as JSON
/// whose "id" member is an unsigned 64-bit integer, then that integer.
/// A function of the body alone.
pub uninterp spec fn response_id(body: Seq<char>) -> Option<u64>;

/// Whether avro_rs's Schema::parse_str succeeds on the text. A function of
/// the text alone.
pub uninterp spec fn avro_parses(text: Seq<char>) -> bool;

/// Relies on serde_json::from_str, Value::get and Value::as_str: reads the
/// body's "schema" string field; each failing stage gives its own message.
#[verifier::external_body]
fn json_schema_field(body: &str) -> (r: Result<String, String>)
    ensures
        r is Ok <==> response_schema_text(body@) is Some,
        r matches Ok(s) ==> response_schema_text(body@) == Some(s@),
{
    let json: serde_json::Value = match serde_json::from_str(body) {
        Ok(v) => v,
        Err(e) => {
            return Err(format!("Invalid json string: {}", e));
        },
    };
    match json.get("schema").and_then(|v| v.as_str()) {
        Some(s) => Ok(s.to_owned()),
        None => Err("Could not get raw schema from response".to_owned()),
    }
}

/// Relies on serde_json::from_str, Value::get and Value::as_u64: reads the
/// body's unsigned "id" field; each failing stage gives its own message.
#[verifier::external_body]
fn json_id_field(body: &str) -> (r: Result<u64, String>)
    ensures
        r is Ok <==> response_id(body@) is Some,
        r matches Ok(n) ==> response_id(body@) == Some(n),
{
    let json: serde_json::Value = match serde_json::from_str(body) {
        Ok(v) => v,
        Err(e) => {
            return Err(format!("Invalid json string: {}", e));
        },
    };
    match json.get("id").and_then(|v| v.as_u64()) {
        Some(n) => Ok(n),
        None => Err("Could not get id from response".to_owned()),
    }
}

/// Relies on avro_rs's Schema::parse_str: parses the Avro schema text —
/// `Err`, carrying the parse error's message, exactly when the text does not
/// parse.
#[verifier::external_body]
fn parse_avro_schema(raw: &str) -> (r: Result<avro_rs::schema::Schema, String>)
    ensures
        r is Ok <==> avro_parses(raw@),
{
    match avro_rs::Schema::parse_str(raw) {
        Ok(s) => Ok(s),
        Err(e) => Err(format!("Could not parse schema: {}", e)),
    }
}

/// Reads a registry response body: the parsed schema under its "schema" key,
/// and the identifier — the one already known when `id` is given, else the
/// response's "id" field, truncated to 32 bits. Succeeds exactly when the
/// body carries a string "schema" field whose text parses as an Avro schema
/// and, when no identifier is given, an unsigned "id" field.
pub fn schema_from_response(body: &str, id: Option<u32>) -> (r: Result<
    (avro_rs::schema::Schema, u32),
    String,
>)
    ensures
        r is Ok <==> (response_schema_text(body@) matches Some(t) && avro_parses(t) && (
        id is Some || response_id(body@) is Some)),
        r matches Ok(p) ==> (match id {
            Some(v) => p.1 == v,
            None => response_id(body@) matches Some(n) && p.1 == n as u32,
        }),
{
    let raw_schema = match json_schema_field(body) {
        Ok(s) => s,
        Err(e) => {
            return Err(e);
        },
    };
    let schema = match parse_avro_schema(raw_schema.as_str()) {
        Ok(s) => s,
        Err(e) => {
            return Err(e);
        },
    };
    let rid: u32 = match id {
        Some(v) => v,
        None => {
            match json_id_field(body) {
                Ok(n) => #[verifier::truncate] (n as u32),
                Err(e) => {
                    return Err(e);
                },
            }
        },
    };
    Ok((schema, rid))
}

/// Reads the registry's response to a lookup by identifier: the schema it
/// carries, for the identifier that was asked for. Succeeds exactly when the
/// body carries a string "schema" field whose text parses as an Avro schema.
pub fn get_schema_by_id(id: u32, response_body: &str) -> (r: Result<avro_rs::schema::Schema, String>)
    ensures
        r is Ok <==> (response_schema_text(response_body@) matches Some(t) && avro_parses(t)),
{
    match schema_from_response(response_body, Some(id)) {
        Ok((schema, _)) => Ok(schema),
        Err(e) => Err(e),
    }
}

/// Reads the registry's response to a lookup by subject: the schema it
/// carries and the identifier the registry assigned it, taken from the
/// response's "id" field.
pub fn get_schema_by_subject(response_body: &str) -> (r: Result<
    (avro_rs::schema::Schema, u32),
    String,
>)
    ensures
        r is Ok <==> (response_schema_text(response_body@) matches Some(t) && avro_parses(t)
            && response_id(response_body@) is Some),
        r matches Ok(p) ==> (response_id(response_body@) matches Some(n) && p.1 == n as u32),
{
    schema_from_response(response_body, None)
}

} // verus!
