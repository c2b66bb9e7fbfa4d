use std::sync::Arc;

use vstd::prelude::*;

use crate::cache::closure_cache_get;
use crate::cache::closure_cache_insert;
use crate::cache::closure_cache_new;
use crate::cache::closure_cache_view;
use crate::cache::closure_cache_empty;
use crate::cache::context_cache_get;
use crate::cache::context_cache_ids;
use crate::cache::context_cache_insert;
use crate::cache::context_cache_new;
use crate::cache::context_cache_empty;
use crate::cache::error_cache_clear;
use crate::cache::error_cache_get;
use crate::cache::error_cache_insert;
use crate::cache::error_cache_new;
use crate::cache::error_cache_view;
use crate::cache::error_cache_empty;
use crate::closure::builder_done;
use crate::closure::builder_frames;
use crate::closure::ref_model;
use crate::closure::settle;
use crate::closure::ClosureBuilder;
use crate::closure::ClosureStep;
use crate::closure::RegisteredSchema;
use crate::closure::SchemaReference;
use crate::context::files_cover_closure;
use crate::context::prepare_files;
use crate::context::DecodeContext;
use crate::error::SRCError;
use crate::framing::framed_id;
use crate::framing::framed_payload;
use crate::framing::get_bytes_result;
use crate::framing::has_valid_prefix;
use crate::framing::BytesResult;
use crate::pool::pool_has_message;
use crate::pool::pool_messages;
use crate::resolver::ascii_seq;
use crate::resolver::resolve_name;
use crate::resolver::resolve_spec;
use crate::resolver::MessageResolver;
use crate::wire::envelope_split;
use crate::wire::to_index_and_data;

verus! {

/// The registry-driven protobuf decoder: three process-wide caches keyed by
/// schema identifier. The closure cache and the context cache only grow; the
/// error cache replays a failed fetch without contacting the registry again,
/// until it is explicitly cleared. All outside work is handed to the caller
/// one step at a time — registry fetches, the descriptor-pool compile and the
/// descriptor-pool decode — so coalescing concurrent builds of the same
/// identifier (at most one fetch or compile in flight per key across racing
/// callers) is the embedding application's affair; the caches only guarantee
/// that whichever build finishes first is the one every later decode reads.
pub struct ProtoDecoder {
    cache: scc::HashMap<u32, Vec<String>>,
    error_cache: scc::HashMap<u32, SRCError>,
    context_cache: scc::HashMap<u32, Arc<DecodeContext>>,
}

/// A decoded value: raw bytes for null or unframed input, or a structured
/// message decoded against the schema the payload names.
pub enum DecodedValue {
    Bytes(Vec<u8>),
    Message(protofish::decode::MessageValue),
}

/// What the caller must fetch from the registry: a schema document by
/// identifier, or a referenced document by subject and version.
pub enum RegistryRequest {
    SchemaById(u32),
    SchemaBySubject(String, u32),
}

/// What the caller's registry fetch produced: the document, or a failure with
/// its retryability and message.
pub enum FetchOutcome {
    Schema(RegisteredSchema),
    Failed(bool, String),
}

/// What the caller's descriptor-pool compile produced: the pool, or the
/// compile error's message. The compile and the decode run outside the
/// library because protofish aborts on some malformed inputs (a field
/// declared with number zero; a payload varint wider than its field's 32-bit
/// width), and the caller can contain an abort where the library must not.
pub enum PoolOutcome {
    Compiled(protofish::context::Context),
    Failed(String),
}

/// What the caller's descriptor-pool decode produced: the structured value,
/// or the failure's message.
pub enum DecodedOutcome {
    Decoded(protofish::decode::MessageValue),
    Failed(String),
}

/// A decode waiting on a registry fetch: the identifier and payload it serves,
/// and the closure build in progress once the root document has arrived.
pub struct DecodeTask {
    pub id: u32,
    pub payload: Vec<u8>,
    pub builder: Option<ClosureBuilder>,
}

/// A decode waiting on the descriptor-pool compile: the file set to compile,
/// the resolver derived from the closure's root document, and the identifier
/// and payload the decode serves.
pub struct CompileJob {
    pub id: u32,
    pub payload: Vec<u8>,
    pub resolver: MessageResolver,
    pub files: Vec<String>,
}

/// A decode waiting on the descriptor-pool decode: the resolved fully
/// qualified name, the payload bytes after the wire envelope, and the
/// compiled context they decode against.
pub struct DecodeJob {
    pub full_name: String,
    pub data_bytes: Vec<u8>,
    pub context: Arc<DecodeContext>,
}

/// One step of a decode: the finished value, a failure, or outside work the
/// caller must perform — a registry fetch answered through `resume`, a
/// descriptor-pool compile answered through `supply_pool`, or a
/// descriptor-pool decode answered through `supply_decoded`.
pub enum Decoding {
    Value(DecodedValue),
    Failure(SRCError),
    Fetch(RegistryRequest, DecodeTask),
    Compile(CompileJob),
    Decode(DecodeJob),
}

/// A successful decode together with what produced it: the compiled context,
/// the resolved fully qualified name and the raw payload bytes, enough for a
/// caller to re-derive field descriptors without recompiling the schema.
pub struct DecodeResultWithContext {
    pub value: protofish::decode::MessageValue,
    pub context: Arc<DecodeContext>,
    pub full_name: String,
    pub data_bytes: Vec<u8>,
}

/// One step of a context-returning decode.
pub enum DecodingWithContext {
    Null,
    Value(DecodeResultWithContext),
    Failure(SRCError),
    Fetch(RegistryRequest, DecodeTask),
    Compile(CompileJob),
    Decode(DecodeJob),
}

impl ProtoDecoder {
    /// The schema-text closures cached by identifier.
    pub closed spec fn closures(&self) -> Map<u32, Seq<Seq<char>>> {
        closure_cache_view(self.cache)
    }

    /// The errors cached by identifier.
    pub closed spec fn errors(&self) -> Map<u32, SRCError> {
        error_cache_view(self.error_cache)
    }

    /// The identifiers with a cached compiled context.
    pub closed spec fn contexts(&self) -> Set<u32> {
        context_cache_ids(self.context_cache)
    }

    /// The error cache is empty.
    pub closed spec fn no_errors(&self) -> bool {
        error_cache_empty(self.error_cache)
    }

    /// All three caches are empty.
    pub closed spec fn fresh(&self) -> bool {
        closure_cache_empty(self.cache) && error_cache_empty(self.error_cache)
            && context_cache_empty(self.context_cache)
    }
}

/// A fresh decoder's caches hold nothing: no closure, no error, no context.
pub broadcast proof fn lemma_fresh_caches(d: ProtoDecoder)
    requires
        #[trigger] d.fresh(),
    ensures
        d.closures() == Map::<u32, Seq<Seq<char>>>::empty(),
        d.errors() == Map::<u32, SRCError>::empty(),
        d.contexts() == Set::<u32>::empty(),
{
}

/// An empty error cache holds no error for any identifier.
pub broadcast proof fn lemma_no_errors(d: ProtoDecoder)
    requires
        #[trigger] d.no_errors(),
    ensures
        d.errors() == Map::<u32, SRCError>::empty(),
{
}

/// The replayed error equals the stored one, marked as served from the cache.
pub open spec fn replayed(e: SRCError, stored: SRCError) -> bool {
    e.error == stored.error && e.cause == stored.cause && e.retriable == stored.retriable
        && e.cached
}

/// The stored error carries the same message, cause and retryability as the
/// fresh one, marked as cached.
pub open spec fn cached_matches(stored: SRCError, e: SRCError) -> bool {
    stored.error@ == e.error@ && (match (stored.cause, e.cause) {
        (Some(x), Some(y)) => x@ == y@,
        (None, None) => true,
        _ => false,
    }) && stored.retriable == e.retriable && stored.cached
}

/// A fresh, non-retryable failure: payload and schema-content defects cannot
/// be helped by retrying.
pub open spec fn failure_fresh(r: Decoding) -> bool {
    r matches Decoding::Failure(e) && !e.retriable && !e.cached
}

/// A fresh, non-retryable failure of the context-returning pipeline.
pub open spec fn failure_fresh_ctx(r: DecodingWithContext) -> bool {
    r matches DecodingWithContext::Failure(e) && !e.retriable && !e.cached
}

/// Whether the payload decodes against a resolver and a compiled pool: the
/// wire envelope is well formed, its index path resolves inside the root
/// document's declared nesting to an ASCII name, and the pool holds a message
/// of that name. The one success condition of a decode once the pool is in
/// hand.
pub open spec fn payload_decodes(
    resolver: MessageResolver,
    ctx: protofish::context::Context,
    payload: Seq<u8>,
) -> bool {
    match envelope_split(payload) {
        Some(p) => match resolve_spec(resolver, p.0) {
            Some(nm) => ascii_seq(nm) && pool_messages(ctx).contains(
                nm.map_values(|b: u8| b as char),
            ),
            None => false,
        },
        None => false,
    }
}

/// A decode job faithful to its payload: the data bytes are the payload after
/// the envelope, the name is the one the job's own resolver derives from the
/// envelope's index path, and the job's pool holds it.
pub open spec fn decode_job_sound(j: DecodeJob, payload: Seq<u8>) -> bool {
    match envelope_split(payload) {
        Some(p) => j.data_bytes@ == p.1 && (match resolve_spec(j.context.resolver, p.0) {
            Some(nm) => ascii_seq(nm) && j.full_name@ == nm.map_values(|b: u8| b as char)
                && pool_messages(j.context.context).contains(j.full_name@),
            None => false,
        }),
        None => false,
    }
}

/// A compile job faithful to a closure: it serves the given identifier and
/// payload, and its file set holds every closure text and nothing beyond the
/// closure texts and the built-in definitions.
pub open spec fn compile_job_sound(
    j: CompileJob,
    id: u32,
    payload: Seq<u8>,
    texts: Seq<Seq<char>>,
) -> bool {
    j.id == id && j.payload@ == payload && files_cover_closure(j.files@, texts)
}

/// The closure build's stack once the fetched document has been fed in: the
/// document becomes the innermost open frame, over the frames of the build in
/// progress (or alone, when the fetched document is the root).
pub open spec fn supplied_frames(builder: Option<ClosureBuilder>, s: RegisteredSchema) -> Seq<
    (Seq<char>, Seq<(Seq<char>, u32)>),
> {
    let f = (s.schema@, s.references@.map_values(|x: SchemaReference| ref_model(x)));
    match builder {
        Some(b) => builder_frames(b).push(f),
        None => seq![f],
    }
}

/// The finished part of the closure carried by the build in progress.
pub open spec fn supplied_done(builder: Option<ClosureBuilder>) -> Seq<Seq<char>> {
    match builder {
        Some(b) => builder_done(b),
        None => Seq::empty(),
    }
}

/// What feeding a fetched document into the build determines, by the closure
/// machine's own model: either the next unresolved reference of the innermost
/// open document is requested and the returned task carries the advanced
/// build, or every reference is resolved and the settled closure is what the
/// decode compiles.
pub open spec fn advances_build(
    r_fetch: Option<(RegistryRequest, DecodeTask)>,
    builder: Option<ClosureBuilder>,
    s: RegisteredSchema,
) -> bool {
    let settled = settle(supplied_frames(builder, s), supplied_done(builder));
    match r_fetch {
        Some(p) => settled.0.len() > 0 && (p.0 matches RegistryRequest::SchemaBySubject(subj, ver)
            && subj@ == settled.0.last().1[0].0 && ver == settled.0.last().1[0].1) && (
        p.1.builder matches Some(b2) && builder_frames(b2) == settled.0.update(
            settled.0.len() - 1,
            (settled.0.last().0, settled.0.last().1.skip(1)),
        ) && builder_done(b2) == settled.1),
        None => settled.0.len() == 0,
    }
}

/// The settled closure of a finished build.
pub open spec fn settled_closure(builder: Option<ClosureBuilder>, s: RegisteredSchema) -> Seq<
    Seq<char>,
> {
    settle(supplied_frames(builder, s), supplied_done(builder)).1
}

/// The closure cache after a finished build: unchanged when the identifier
/// already had a closure, else extended with the newly settled one.
pub open spec fn closure_was_cached(
    before: Map<u32, Seq<Seq<char>>>,
    after: Map<u32, Seq<Seq<char>>>,
    id: u32,
    texts: Seq<Seq<char>>,
) -> bool {
    if before.contains_key(id) {
        after == before
    } else {
        after == before.insert(id, texts)
    }
}

impl ProtoDecoder {
    /// A decoder whose caches are all empty.
    pub fn new() -> (r: ProtoDecoder)
        ensures
            r.fresh(),
    {
        ProtoDecoder {
            cache: closure_cache_new(),
            error_cache: error_cache_new(),
            context_cache: context_cache_new(),
        }
    }

    /// Clears every cached error at once, keeping the success caches: after a
    /// transient registry outage is believed resolved, the next decode for a
    /// poisoned identifier contacts the registry again.
    pub fn remove_errors_from_cache(&mut self)
        ensures
            final(self).no_errors(),
            final(self).closures() == old(self).closures(),
            final(self).contexts() == old(self).contexts(),
    {
        error_cache_clear(&mut self.error_cache);
    }

    /// Decodes a payload. Null input gives an empty bytes value; input without
    /// a recognizable framing prefix gives the original bytes back verbatim,
    /// never an error and never a cache entry. For a framed payload: a cached
    /// closure goes straight to a compile step without any registry request;
    /// otherwise a cached error is replayed, marked as served from the cache;
    /// otherwise the caller is asked to fetch the root document and continue
    /// with `resume`. The caches are never changed by this call.
    pub fn decode(&self, bytes: Option<&[u8]>) -> (r: Decoding)
        ensures
            match bytes {
                None => r matches Decoding::Value(DecodedValue::Bytes(b)) && b@.len() == 0,
                Some(input) => {
                    if !has_valid_prefix(input@) {
                        r matches Decoding::Value(DecodedValue::Bytes(b)) && b@ == input@
                    } else if self.closures().contains_key(framed_id(input@)) {
                        if self.closures()[framed_id(input@)].len() == 0 {
                            failure_fresh(r)
                        } else {
                            r matches Decoding::Compile(job) && compile_job_sound(
                                job,
                                framed_id(input@),
                                framed_payload(input@),
                                self.closures()[framed_id(input@)],
                            )
                        }
                    } else if self.errors().contains_key(framed_id(input@)) {
                        r matches Decoding::Failure(e) && replayed(
                            e,
                            self.errors()[framed_id(input@)],
                        )
                    } else {
                        r matches Decoding::Fetch(req, task) && req == (
                        RegistryRequest::SchemaById(framed_id(input@))) && task.id == framed_id(
                            input@,
                        ) && task.payload@ == framed_payload(input@) && task.builder is None
                    }
                },
            },
    {
        match get_bytes_result(bytes) {
            BytesResult::Null => Decoding::Value(DecodedValue::Bytes(Vec::new())),
            BytesResult::Invalid(i) => Decoding::Value(DecodedValue::Bytes(i)),
            BytesResult::Valid(id, payload) => {
                match closure_cache_get(&self.cache, id) {
                    Some(texts) => {
                        match prepare_files(texts) {
                            Ok((resolver, files)) => Decoding::Compile(
                                CompileJob { id, payload, resolver, files },
                            ),
                            Err(e) => Decoding::Failure(e),
                        }
                    },
                    None => {
                        match error_cache_get(&self.error_cache, id) {
                            Some(e) => Decoding::Failure(e.into_cache()),
                            None => Decoding::Fetch(
                                RegistryRequest::SchemaById(id),
                                DecodeTask { id, payload, builder: None },
                            ),
                        }
                    },
                }
            },
        }
    }

    /// Continues a decode with what the registry fetch produced. A failure is
    /// returned fresh, with the fetch's message as its cause, and stored in
    /// the error cache (if no error is stored yet) so later decodes for the
    /// identifier fail fast. A fetched document feeds the closure build:
    /// either the next referenced document is requested, or the finished
    /// closure is cached (converging on an already-cached closure if one
    /// appeared) and a compile step for it is handed out.
    pub fn resume(&mut self, task: DecodeTask, fetched: FetchOutcome) -> (r: Decoding)
        ensures
            final(self).contexts() == old(self).contexts(),
            match fetched {
                FetchOutcome::Failed(retryable, msg) => {
                    r matches Decoding::Failure(e) && e.retriable == retryable && !e.cached
                        && e.error@ == "failed to fetch schema from registry"@ && (
                    e.cause matches Some(c) && c@ == msg@) && final(self).closures() == old(
                        self,
                    ).closures() && (if old(self).errors().contains_key(task.id) {
                        final(self).errors() == old(self).errors()
                    } else {
                        exists|stored: SRCError|
                            final(self).errors() == old(self).errors().insert(task.id, stored)
                                && cached_matches(stored, e)
                    })
                },
                FetchOutcome::Schema(s) => {
                    final(self).errors() == old(self).errors() && (old(
                        self,
                    ).closures().contains_key(task.id) ==> final(self).closures() == old(
                        self,
                    ).closures()) && match r {
                        Decoding::Fetch(req, t2) => {
                            t2.id == task.id && t2.payload == task.payload && final(self).closures()
                                == old(self).closures() && advances_build(
                                Some((req, t2)),
                                task.builder,
                                s,
                            )
                        },
                        Decoding::Compile(job) => {
                            advances_build(None, task.builder, s) && closure_was_cached(
                                old(self).closures(),
                                final(self).closures(),
                                task.id,
                                settled_closure(task.builder, s),
                            ) && final(self).closures().contains_key(task.id) && compile_job_sound(
                                job,
                                task.id,
                                task.payload@,
                                final(self).closures()[task.id],
                            )
                        },
                        Decoding::Failure(e) => {
                            !e.retriable && !e.cached && advances_build(None, task.builder, s)
                                && closure_was_cached(
                                old(self).closures(),
                                final(self).closures(),
                                task.id,
                                settled_closure(task.builder, s),
                            )
                        },
                        Decoding::Value(_) => false,
                        Decoding::Decode(_) => false,
                    }
                },
            },
    {
        let DecodeTask { id, payload, builder } = task;
        match fetched {
            FetchOutcome::Failed(retryable, msg) => {
                let stored = SRCError::new(
                    "failed to fetch schema from registry",
                    Some(msg.clone()),
                    retryable,
                ).into_cache();
                let e = SRCError::new("failed to fetch schema from registry", Some(msg), retryable);
                let ghost st = stored;
                error_cache_insert(&mut self.error_cache, id, stored);
                proof {
                    assert(cached_matches(st, e));
                    if !old(self).errors().contains_key(id) {
                        assert(self.errors() == old(self).errors().insert(id, st));
                    }
                }
                Decoding::Failure(e)
            },
            FetchOutcome::Schema(s) => {
                let ghost gb = builder;
                let b = match builder {
                    Some(b0) => b0.supply(s),
                    None => ClosureBuilder::start(s),
                };
                proof {
                    if gb is None {
                        assert(builder_done(b) =~= Seq::<Seq<char>>::empty());
                    }
                }
                match b.step() {
                    ClosureStep::Fetch(reference, b2) => Decoding::Fetch(
                        RegistryRequest::SchemaBySubject(reference.subject, reference.version),
                        DecodeTask { id, payload, builder: Some(b2) },
                    ),
                    ClosureStep::Done(texts) => {
                        closure_cache_insert(&mut self.cache, id, texts);
                        let cached = match closure_cache_get(&self.cache, id) {
                            Some(t) => t,
                            None => {
                                proof {
                                    assert(false);
                                }
                                return Decoding::Failure(
                                    SRCError::new("schema closure missing", None, false),
                                );
                            },
                        };
                        match prepare_files(cached) {
                            Ok((resolver, files)) => Decoding::Compile(
                                CompileJob { id, payload, resolver, files },
                            ),
                            Err(e) => Decoding::Failure(e),
                        }
                    },
                }
            },
        }
    }

    /// Continues a decode with what the descriptor-pool compile produced. A
    /// compile failure comes back fresh and non-retryable, carrying the
    /// compile's message; nothing is cached here. A compiled pool is read
    /// against the payload: the wire envelope is split, its index path is
    /// resolved against the job's resolver, and exactly when the pool holds
    /// the resolved name, a decode step for it is handed out.
    pub fn supply_pool(job: CompileJob, outcome: PoolOutcome) -> (r: Decoding)
        ensures
            match outcome {
                PoolOutcome::Failed(msg) => {
                    r matches Decoding::Failure(e) && !e.retriable && !e.cached && (
                    e.cause matches Some(c) && c@ == msg@)
                },
                PoolOutcome::Compiled(ctx) => {
                    (r is Decode <==> payload_decodes(job.resolver, ctx, job.payload@)) && (
                    r matches Decoding::Decode(j) ==> decode_job_sound(j, job.payload@)
                        && j.context.resolver == job.resolver && j.context.context == ctx) && (!(
                    r is Decode) ==> failure_fresh(r))
                },
            },
    {
        match outcome {
            PoolOutcome::Failed(msg) => Decoding::Failure(
                SRCError::non_retryable_with_cause(msg, "Error creating proto context"),
            ),
            PoolOutcome::Compiled(ctx) => {
                let (index, data_bytes) = match to_index_and_data(job.payload.as_slice()) {
                    Ok(p) => p,
                    Err(e) => {
                        return Decoding::Failure(e);
                    },
                };
                let full_name = match resolve_name(&job.resolver, &index) {
                    Ok(f) => f,
                    Err(e) => {
                        return Decoding::Failure(e);
                    },
                };
                if pool_has_message(&ctx, &full_name) {
                    Decoding::Decode(
                        DecodeJob {
                            full_name,
                            data_bytes,
                            context: Arc::new(
                                DecodeContext { resolver: job.resolver, context: ctx },
                            ),
                        },
                    )
                } else {
                    Decoding::Failure(
                        SRCError::new("Could not find matching message in schema", None, false),
                    )
                }
            },
        }
    }

    /// Finishes a decode with what the descriptor-pool decode produced: the
    /// decoded value as a message, or the failure fresh and non-retryable,
    /// carrying the decode's message.
    pub fn supply_decoded(job: DecodeJob, outcome: DecodedOutcome) -> (r: Decoding)
        ensures
            match outcome {
                DecodedOutcome::Decoded(m) => r matches Decoding::Value(DecodedValue::Message(v))
                    && v == m,
                DecodedOutcome::Failed(msg) => {
                    r matches Decoding::Failure(e) && !e.retriable && !e.cached && (
                    e.cause matches Some(c) && c@ == msg@)
                },
            },
    {
        match outcome {
            DecodedOutcome::Decoded(m) => Decoding::Value(DecodedValue::Message(m)),
            DecodedOutcome::Failed(msg) => Decoding::Failure(
                SRCError::non_retryable_with_cause(msg, "Error decoding protobuf payload"),
            ),
        }
    }

    /// Splits the wire envelope and resolves the message name against a
    /// context already in hand; exactly when the context's pool holds the
    /// name, a decode step for it is handed out.
    fn finish_ready(context: Arc<DecodeContext>, payload: Vec<u8>) -> (r: DecodingWithContext)
        ensures
            r is Decode <==> payload_decodes(context.resolver, context.context, payload@),
            r matches DecodingWithContext::Decode(j) ==> decode_job_sound(j, payload@) && j.context
                == context,
            !(r is Decode) ==> failure_fresh_ctx(r),
    {
        let (index, data_bytes) = match to_index_and_data(payload.as_slice()) {
            Ok(p) => p,
            Err(e) => {
                return DecodingWithContext::Failure(e);
            },
        };
        let full_name = match resolve_name(&context.resolver, &index) {
            Ok(f) => f,
            Err(e) => {
                return DecodingWithContext::Failure(e);
            },
        };
        if pool_has_message(&context.context, &full_name) {
            DecodingWithContext::Decode(DecodeJob { full_name, data_bytes, context })
        } else {
            DecodingWithContext::Failure(
                SRCError::new("Could not find matching message in schema", None, false),
            )
        }
    }

    /// Decodes a payload, handing back the compiled context and resolved name
    /// alongside the value. Null input gives `Null`; input without a
    /// recognizable framing prefix gives a fresh non-retryable failure, never
    /// a cache entry. For a framed payload: a cached context goes straight to
    /// a decode step; a cached closure goes to a compile step answered
    /// through `supply_pool_with_context`; otherwise a cached error is
    /// replayed, marked as served from the cache; otherwise the caller is
    /// asked to fetch the root document and continue with
    /// `resume_with_context`. The caches are never changed by this call.
    pub fn decode_with_context(&self, bytes: Option<&[u8]>) -> (r: DecodingWithContext)
        ensures
            match bytes {
                None => r is Null,
                Some(input) => {
                    if !has_valid_prefix(input@) {
                        r matches DecodingWithContext::Failure(e) && !e.retriable && !e.cached
                            && e.error@ == "no protobuf compatible bytes"@
                    } else if self.contexts().contains(framed_id(input@)) {
                        (r is Decode || failure_fresh_ctx(r)) && (envelope_split(
                            framed_payload(input@),
                        ) is None ==> failure_fresh_ctx(r)) && (r matches
                        DecodingWithContext::Decode(j) ==> decode_job_sound(
                            j,
                            framed_payload(input@),
                        ))
                    } else if self.closures().contains_key(framed_id(input@)) {
                        if self.closures()[framed_id(input@)].len() == 0 {
                            failure_fresh_ctx(r)
                        } else {
                            r matches DecodingWithContext::Compile(job) && compile_job_sound(
                                job,
                                framed_id(input@),
                                framed_payload(input@),
                                self.closures()[framed_id(input@)],
                            )
                        }
                    } else if self.errors().contains_key(framed_id(input@)) {
                        r matches DecodingWithContext::Failure(e) && replayed(
                            e,
                            self.errors()[framed_id(input@)],
                        )
                    } else {
                        r matches DecodingWithContext::Fetch(req, task) && req == (
                        RegistryRequest::SchemaById(framed_id(input@))) && task.id == framed_id(
                            input@,
                        ) && task.payload@ == framed_payload(input@) && task.builder is None
                    }
                },
            },
    {
        match get_bytes_result(bytes) {
            BytesResult::Null => DecodingWithContext::Null,
            BytesResult::Invalid(_) => DecodingWithContext::Failure(
                SRCError::new("no protobuf compatible bytes", None, false),
            ),
            BytesResult::Valid(id, payload) => {
                match context_cache_get(&self.context_cache, id) {
                    Some(context) => Self::finish_ready(context, payload),
                    None => {
                        match closure_cache_get(&self.cache, id) {
                            Some(texts) => {
                                match prepare_files(texts) {
                                    Ok((resolver, files)) => DecodingWithContext::Compile(
                                        CompileJob { id, payload, resolver, files },
                                    ),
                                    Err(e) => DecodingWithContext::Failure(e),
                                }
                            },
                            None => {
                                match error_cache_get(&self.error_cache, id) {
                                    Some(e) => DecodingWithContext::Failure(e.into_cache()),
                                    None => DecodingWithContext::Fetch(
                                        RegistryRequest::SchemaById(id),
                                        DecodeTask { id, payload, builder: None },
                                    ),
                                }
                            },
                        }
                    },
                }
            },
        }
    }

    /// Continues a context-returning decode with what the registry fetch
    /// produced, with the same cache discipline as `resume`; a finished
    /// closure is cached and a compile step for it is handed out.
    pub fn resume_with_context(&mut self, task: DecodeTask, fetched: FetchOutcome) -> (r:
        DecodingWithContext)
        ensures
            final(self).contexts() == old(self).contexts(),
            match fetched {
                FetchOutcome::Failed(retryable, msg) => {
                    r matches DecodingWithContext::Failure(e) && e.retriable == retryable
                        && !e.cached && e.error@ == "failed to fetch schema from registry"@ && (
                    e.cause matches Some(c) && c@ == msg@) && final(self).closures() == old(
                        self,
                    ).closures() && (if old(self).errors().contains_key(task.id) {
                        final(self).errors() == old(self).errors()
                    } else {
                        exists|stored: SRCError|
                            final(self).errors() == old(self).errors().insert(task.id, stored)
                                && cached_matches(stored, e)
                    })
                },
                FetchOutcome::Schema(s) => {
                    final(self).errors() == old(self).errors() && (old(
                        self,
                    ).closures().contains_key(task.id) ==> final(self).closures() == old(
                        self,
                    ).closures()) && match r {
                        DecodingWithContext::Fetch(req, t2) => {
                            t2.id == task.id && t2.payload == task.payload && final(self).closures()
                                == old(self).closures() && advances_build(
                                Some((req, t2)),
                                task.builder,
                                s,
                            )
                        },
                        DecodingWithContext::Compile(job) => {
                            advances_build(None, task.builder, s) && closure_was_cached(
                                old(self).closures(),
                                final(self).closures(),
                                task.id,
                                settled_closure(task.builder, s),
                            ) && final(self).closures().contains_key(task.id) && compile_job_sound(
                                job,
                                task.id,
                                task.payload@,
                                final(self).closures()[task.id],
                            )
                        },
                        DecodingWithContext::Failure(e) => {
                            !e.retriable && !e.cached && advances_build(None, task.builder, s)
                                && closure_was_cached(
                                old(self).closures(),
                                final(self).closures(),
                                task.id,
                                settled_closure(task.builder, s),
                            )
                        },
                        DecodingWithContext::Null => false,
                        DecodingWithContext::Value(_) => false,
                        DecodingWithContext::Decode(_) => false,
                    }
                },
            },
    {
        let DecodeTask { id, payload, builder } = task;
        match fetched {
            FetchOutcome::Failed(retryable, msg) => {
                let stored = SRCError::new(
                    "failed to fetch schema from registry",
                    Some(msg.clone()),
                    retryable,
                ).into_cache();
                let e = SRCError::new("failed to fetch schema from registry", Some(msg), retryable);
                let ghost st = stored;
                error_cache_insert(&mut self.error_cache, id, stored);
                proof {
                    assert(cached_matches(st, e));
                    if !old(self).errors().contains_key(id) {
                        assert(self.errors() == old(self).errors().insert(id, st));
                    }
                }
                DecodingWithContext::Failure(e)
            },
            FetchOutcome::Schema(s) => {
                let ghost gb = builder;
                let b = match builder {
                    Some(b0) => b0.supply(s),
                    None => ClosureBuilder::start(s),
                };
                proof {
                    if gb is None {
                        assert(builder_done(b) =~= Seq::<Seq<char>>::empty());
                    }
                }
                match b.step() {
                    ClosureStep::Fetch(reference, b2) => DecodingWithContext::Fetch(
                        RegistryRequest::SchemaBySubject(reference.subject, reference.version),
                        DecodeTask { id, payload, builder: Some(b2) },
                    ),
                    ClosureStep::Done(texts) => {
                        closure_cache_insert(&mut self.cache, id, texts);
                        let cached = match closure_cache_get(&self.cache, id) {
                            Some(t) => t,
                            None => {
                                proof {
                                    assert(false);
                                }
                                return DecodingWithContext::Failure(
                                    SRCError::new("schema closure missing", None, false),
                                );
                            },
                        };
                        match prepare_files(cached) {
                            Ok((resolver, files)) => DecodingWithContext::Compile(
                                CompileJob { id, payload, resolver, files },
                            ),
                            Err(e) => DecodingWithContext::Failure(e),
                        }
                    },
                }
            },
        }
    }

    /// Continues a context-returning decode with what the descriptor-pool
    /// compile produced. A compile failure comes back fresh, carrying the
    /// compile's message, and caches nothing: compile failures are never
    /// persisted, while a compiled context is cached under the identifier
    /// before anything else can fail, so the compilation cost is paid once.
    pub fn supply_pool_with_context(&mut self, job: CompileJob, outcome: PoolOutcome) -> (r:
        DecodingWithContext)
        ensures
            final(self).closures() == old(self).closures(),
            final(self).errors() == old(self).errors(),
            match outcome {
                PoolOutcome::Failed(msg) => {
                    r matches DecodingWithContext::Failure(e) && !e.retriable && !e.cached && (
                    e.cause matches Some(c) && c@ == msg@) && final(self).contexts() == old(
                        self,
                    ).contexts()
                },
                PoolOutcome::Compiled(_) => {
                    final(self).contexts() == old(self).contexts().insert(job.id) && (r is Decode
                        || failure_fresh_ctx(r)) && (envelope_split(job.payload@) is None
                        ==> failure_fresh_ctx(r)) && (r matches DecodingWithContext::Decode(j)
                        ==> decode_job_sound(j, job.payload@))
                },
            },
    {
        match outcome {
            PoolOutcome::Failed(msg) => DecodingWithContext::Failure(
                SRCError::non_retryable_with_cause(msg, "Error creating proto context"),
            ),
            PoolOutcome::Compiled(ctx) => {
                let arc = Arc::new(DecodeContext { resolver: job.resolver, context: ctx });
                context_cache_insert(&mut self.context_cache, job.id, arc);
                let cached = match context_cache_get(&self.context_cache, job.id) {
                    Some(c) => c,
                    None => {
                        proof {
                            assert(false);
                        }
                        return DecodingWithContext::Failure(
                            SRCError::new("decode context missing", None, false),
                        );
                    },
                };
                Self::finish_ready(cached, job.payload)
            },
        }
    }

    /// Finishes a context-returning decode with what the descriptor-pool
    /// decode produced: the value together with the context, resolved name
    /// and payload bytes it was decoded from, or the failure fresh and
    /// non-retryable, carrying the decode's message.
    pub fn supply_decoded_with_context(job: DecodeJob, outcome: DecodedOutcome) -> (r:
        DecodingWithContext)
        ensures
            match outcome {
                DecodedOutcome::Decoded(m) => {
                    r matches DecodingWithContext::Value(res) && res.value == m && res.context
                        == job.context && res.full_name == job.full_name && res.data_bytes
                        == job.data_bytes
                },
                DecodedOutcome::Failed(msg) => {
                    r matches DecodingWithContext::Failure(e) && !e.retriable && !e.cached && (
                    e.cause matches Some(c) && c@ == msg@)
                },
            },
    {
        match outcome {
            DecodedOutcome::Decoded(m) => {
                let DecodeJob { full_name, data_bytes, context } = job;
                DecodingWithContext::Value(
                    DecodeResultWithContext { value: m, context, full_name, data_bytes },
                )
            },
            DecodedOutcome::Failed(msg) => DecodingWithContext::Failure(
                SRCError::non_retryable_with_cause(msg, "Error decoding protobuf payload"),
            ),
        }
    }
}

} // verus!
