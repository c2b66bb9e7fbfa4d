use vstd::prelude::*;

verus! {

/// Whether some string in the sequence has exactly these characters.
pub open spec fn contains_str(v: Seq<String>, s: Seq<char>) -> bool {
    exists|i: int| 0 <= i < v.len() && v[i]@ == s
}

/// Whether the characters are the text of one of the built-in well-known
/// schema definitions.
pub open spec fn is_common_text(s: Seq<char>) -> bool {
    s == any_text()@ || s == duration_text()@ || s == empty_text()@ || s == timestamp_text()@
        || s == wrappers_text()@
}

pub open spec fn any_text() -> &'static str {
    "syntax = \"proto3\"; package google.protobuf; message Any { string type_url = 1; bytes value = 2; }"
}

pub open spec fn duration_text() -> &'static str {
    "syntax = \"proto3\"; package google.protobuf; message Duration { int64 seconds = 1; int32 nanos = 2; }"
}

pub open spec fn empty_text() -> &'static str {
    "syntax = \"proto3\"; package google.protobuf; message Empty { }"
}

pub open spec fn timestamp_text() -> &'static str {
    "syntax = \"proto3\"; package google.protobuf; message Timestamp { int64 seconds = 1; int32 nanos = 2; }"
}

pub open spec fn wrappers_text() -> &'static str {
    "syntax = \"proto3\"; package google.protobuf; message DoubleValue { double value = 1; } message FloatValue { float value = 1; } message Int64Value { int64 value = 1; } message UInt64Value { uint64 value = 1; } message Int32Value { int32 value = 1; } message UInt32Value { uint32 value = 1; } message BoolValue { bool value = 1; } message StringValue { string value = 1; } message BytesValue { bytes value = 1; }"
}

/// Whether the vector holds a string with exactly the characters of `s`.
pub(crate) fn contains_string(v: &Vec<String>, s: &String) -> (r: bool)
    ensures
        r == contains_str(v@, s@),
{
    let mut k: usize = 0;
    while k < v.len()
        invariant
            k <= v@.len(),
            forall|i: int| 0 <= i < k ==> v@[i]@ != s@,
        decreases v@.len() - k,
    {
        if v[k].eq(s) {
            return true;
        }
        k = k + 1;
    }
    false
}

proof fn lemma_contains_preserved(a: Seq<String>, b: Seq<String>, s: Seq<char>)
    requires
        a.is_prefix_of(b),
        contains_str(a, s),
    ensures
        contains_str(b, s),
{
    let i = choose|i: int| 0 <= i < a.len() && a[i]@ == s;
    assert(b[i] == a[i]);
}

/// Appends the built-in `text` when `path` is among the imports and the text
/// is not already present.
fn add_if_imported(imports: &Vec<String>, files: &mut Vec<String>, path: &str, text: &str)
    ensures
        old(files)@.is_prefix_of(final(files)@),
        contains_str(imports@, path@) ==> contains_str(final(files)@, text@),
        final(files)@.len() <= old(files)@.len() + 1,
        forall|j: int|
            old(files)@.len() <= j < final(files)@.len() ==> final(files)@[j]@ == text@,
        (!contains_str(imports@, path@) || contains_str(old(files)@, text@)) ==> final(files)@
            == old(files)@,
{
    let path_string = path.to_owned();
    let text_string = text.to_owned();
    if contains_string(imports, &path_string) && !contains_string(files, &text_string) {
        files.push(text_string);
        proof {
            assert(old(files)@.is_prefix_of(final(files)@));
            assert(final(files)@.last()@ == text@);
        }
    }
    proof {
        assert(old(files)@.is_prefix_of(files@));
    }
}

/// Adds to `files` the built-in definition of every well-known type that the
/// imports name and that is not already present: references to these standard
/// types resolve without the registry having to host them. Nothing else is
/// added, and what was in `files` stays, in order, in front.
pub fn add_common_files(imports: &Vec<String>, files: &mut Vec<String>)
    ensures
        old(files)@.is_prefix_of(final(files)@),
        contains_str(imports@, "google/protobuf/any.proto"@) ==> contains_str(
            final(files)@,
            any_text()@,
        ),
        contains_str(imports@, "google/protobuf/duration.proto"@) ==> contains_str(
            final(files)@,
            duration_text()@,
        ),
        contains_str(imports@, "google/protobuf/empty.proto"@) ==> contains_str(
            final(files)@,
            empty_text()@,
        ),
        contains_str(imports@, "google/protobuf/timestamp.proto"@) ==> contains_str(
            final(files)@,
            timestamp_text()@,
        ),
        contains_str(imports@, "google/protobuf/wrappers.proto"@) ==> contains_str(
            final(files)@,
            wrappers_text()@,
        ),
        forall|j: int|
            old(files)@.len() <= j < final(files)@.len() ==> is_common_text(
                #[trigger] final(files)@[j]@,
            ),
{
    add_if_imported(imports, files, "google/protobuf/any.proto", "syntax = \"proto3\"; package google.protobuf; message Any { string type_url = 1; bytes value = 2; }");
    let ghost f1 = files@;
    add_if_imported(imports, files, "google/protobuf/duration.proto", "syntax = \"proto3\"; package google.protobuf; message Duration { int64 seconds = 1; int32 nanos = 2; }");
    let ghost f2 = files@;
    add_if_imported(imports, files, "google/protobuf/empty.proto", "syntax = \"proto3\"; package google.protobuf; message Empty { }");
    let ghost f3 = files@;
    add_if_imported(imports, files, "google/protobuf/timestamp.proto", "syntax = \"proto3\"; package google.protobuf; message Timestamp { int64 seconds = 1; int32 nanos = 2; }");
    let ghost f4 = files@;
    add_if_imported(imports, files, "google/protobuf/wrappers.proto", "syntax = \"proto3\"; package google.protobuf; message DoubleValue { double value = 1; } message FloatValue { float value = 1; } message Int64Value { int64 value = 1; } message UInt64Value { uint64 value = 1; } message Int32Value { int32 value = 1; } message UInt32Value { uint32 value = 1; } message BoolValue { bool value = 1; } message StringValue { string value = 1; } message BytesValue { bytes value = 1; }");
    proof {
        if contains_str(imports@, "google/protobuf/any.proto"@) {
            lemma_contains_preserved(f1, f2, any_text()@);
            lemma_contains_preserved(f2, f3, any_text()@);
            lemma_contains_preserved(f3, f4, any_text()@);
            lemma_contains_preserved(f4, files@, any_text()@);
        }
        if contains_str(imports@, "google/protobuf/duration.proto"@) {
            lemma_contains_preserved(f2, f3, duration_text()@);
            lemma_contains_preserved(f3, f4, duration_text()@);
            lemma_contains_preserved(f4, files@, duration_text()@);
        }
        if contains_str(imports@, "google/protobuf/empty.proto"@) {
            lemma_contains_preserved(f3, f4, empty_text()@);
            lemma_contains_preserved(f4, files@, empty_text()@);
        }
        if contains_str(imports@, "google/protobuf/timestamp.proto"@) {
            lemma_contains_preserved(f4, files@, timestamp_text()@);
        }
        assert forall|j: int|
            old(files)@.len() <= j < files@.len() implies is_common_text(
            #[trigger] files@[j]@,
        ) by {
            if j < f4.len() {
                assert(files@[j] == f4[j]);
                if j < f3.len() {
                    assert(f4[j] == f3[j]);
                    if j < f2.len() {
                        assert(f3[j] == f2[j]);
                        if j < f1.len() {
                            assert(f2[j] == f1[j]);
                        }
                    }
                }
            }
        }
    }
}

} // verus!
