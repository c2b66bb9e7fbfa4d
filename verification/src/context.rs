use vstd::prelude::*;

use crate::common::add_common_files;
use crate::common::contains_str;
use crate::common::contains_string;
use crate::common::is_common_text;
use crate::error::SRCError;
use crate::resolver::MessageResolver;

verus! {

/// The compiled artifacts for one schema identifier: a descriptor pool built
/// from the schema closure plus the built-in well-known types, and the name
/// resolver derived from the root document's declared type structure.
/// Immutable after construction and shared across decode calls.
pub struct DecodeContext {
    pub resolver: MessageResolver,
    pub context: protofish::context::Context,
}

/// Whether the files hold every closure text, and nothing beyond the closure
/// texts and the built-in well-known definitions.
pub open spec fn files_cover_closure(files: Seq<String>, texts: Seq<Seq<char>>) -> bool {
    (forall|t: int| 0 <= t < texts.len() ==> contains_str(files, #[trigger] texts[t])) && (forall|
        f: int,
    |
        0 <= f < files.len() ==> (exists|t: int| 0 <= t < texts.len() && #[trigger] files[f]@
            == texts[t]) || is_common_text(files[f]@))
}

/// Assembles the file set a schema closure compiles from: the resolver is
/// derived from the closure's final element (the root document), and the
/// files are the deduplicated closure texts plus the built-in definitions the
/// root imports. Fails exactly on an empty closure.
#[verifier::loop_isolation(false)]
pub fn prepare_files(vec_of_schemas: Vec<String>) -> (r: Result<
    (MessageResolver, Vec<String>),
    SRCError,
>)
    ensures
        r is Ok <==> vec_of_schemas@.len() > 0,
        r matches Err(e) ==> !e.retriable && !e.cached,
        r matches Ok(p) ==> files_cover_closure(p.1@, vec_of_schemas@.map_values(|s: String| s@)),
{
    if vec_of_schemas.len() == 0 {
        return Err(SRCError::new("empty schema closure", None, false));
    }
    let root = &vec_of_schemas[vec_of_schemas.len() - 1];
    let resolver = MessageResolver::new(root.as_str());
    let mut files: Vec<String> = Vec::new();
    add_common_files(&resolver.imports, &mut files);
    let mut k: usize = 0;
    while k < vec_of_schemas.len()
        invariant
            k <= vec_of_schemas@.len(),
            forall|t: int| 0 <= t < k ==> contains_str(files@, #[trigger] vec_of_schemas@[t]@),
            forall|f: int|
                0 <= f < files@.len() ==> (exists|t: int|
                    0 <= t < vec_of_schemas@.len() && #[trigger] files@[f]@
                        == vec_of_schemas@[t]@) || is_common_text(files@[f]@),
        decreases vec_of_schemas@.len() - k,
    {
        let ghost pre = files@;
        let s = vec_of_schemas[k].clone();
        if !contains_string(&files, &s) {
            files.push(s);
        }
        proof {
            assert forall|t: int| 0 <= t < k + 1 implies contains_str(
                files@,
                #[trigger] vec_of_schemas@[t]@,
            ) by {
                if t < k {
                    let w = choose|w: int| 0 <= w < pre.len() && pre[w]@ == vec_of_schemas@[t]@;
                    assert(files@[w] == pre[w]);
                } else {
                    if contains_str(pre, vec_of_schemas@[t]@) {
                        let w = choose|w: int|
                            0 <= w < pre.len() && pre[w]@ == vec_of_schemas@[t]@;
                        assert(files@[w] == pre[w]);
                    } else {
                        assert(files@.last()@ == vec_of_schemas@[t]@);
                    }
                }
            }
        }
        k = k + 1;
    }
    proof {
        let texts = vec_of_schemas@.map_values(|s: String| s@);
        assert forall|t: int| 0 <= t < texts.len() implies contains_str(
            files@,
            #[trigger] texts[t],
        ) by {
            assert(texts[t] == vec_of_schemas@[t]@);
        }
        assert forall|f: int| 0 <= f < files@.len() implies (exists|t: int|
            0 <= t < texts.len() && #[trigger] files@[f]@ == texts[t]) || is_common_text(
            files@[f]@,
        ) by {
            if exists|t: int|
                0 <= t < vec_of_schemas@.len() && #[trigger] files@[f]@ == vec_of_schemas@[t]@ {
                let w = choose|t: int|
                    0 <= t < vec_of_schemas@.len() && #[trigger] files@[f]@
                        == vec_of_schemas@[t]@;
                assert(texts[w] == vec_of_schemas@[w]@);
            }
        }
    }
    Ok((resolver, files))
}

} // verus!
