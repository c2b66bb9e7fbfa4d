use vstd::prelude::*;

verus! {

/// A declared pointer from one schema document to another: the import name it
/// answers, and the registry subject and version that hold the referenced
/// document.
#[derive(Debug)]
pub struct SchemaReference {
    pub name: String,
    pub subject: String,
    pub version: u32,
}

/// A schema document as the registry serves it: its source text and its
/// declared references in declaration order.
#[derive(Debug)]
pub struct RegisteredSchema {
    pub schema: String,
    pub references: Vec<SchemaReference>,
}

/// One open document while linearizing the reference graph: its text and the
/// references of it not yet resolved, in declaration order.
pub struct ClosureFrame {
    pub text: String,
    pub pending: Vec<SchemaReference>,
}

/// The depth-first linearization of a schema's reference graph, driven one
/// registry fetch at a time: `step` either asks for the next referenced
/// document or hands back the finished closure, and `supply` feeds a fetched
/// document in. The resulting list holds every document after all documents
/// it depends on, with the root's text as the final element.
pub struct ClosureBuilder {
    pub frames: Vec<ClosureFrame>,
    pub done: Vec<String>,
}

/// What `step` produced: a reference that must be fetched before the build
/// can go on, or the finished closure.
pub enum ClosureStep {
    Fetch(SchemaReference, ClosureBuilder),
    Done(Vec<String>),
}

/// The model of a reference: its subject and version.
pub open spec fn ref_model(r: SchemaReference) -> (Seq<char>, u32) {
    (r.subject@, r.version)
}

/// The model of an open document: its text and its unresolved references.
pub open spec fn frame_model(f: ClosureFrame) -> (Seq<char>, Seq<(Seq<char>, u32)>) {
    (f.text@, f.pending@.map_values(|r: SchemaReference| ref_model(r)))
}

/// The model of the builder's stack, outermost document first.
pub open spec fn builder_frames(b: ClosureBuilder) -> Seq<(Seq<char>, Seq<(Seq<char>, u32)>)> {
    b.frames@.map_values(|f: ClosureFrame| frame_model(f))
}

/// The model of the finished part of the closure, dependency-first.
pub open spec fn builder_done(b: ClosureBuilder) -> Seq<Seq<char>> {
    b.done@.map_values(|s: String| s@)
}

/// Pops every trailing document whose references are all resolved, appending
/// each popped text to the closure: a document's own text enters the closure
/// only once all documents it depends on are in.
pub open spec fn settle(
    frames: Seq<(Seq<char>, Seq<(Seq<char>, u32)>)>,
    done: Seq<Seq<char>>,
) -> (Seq<(Seq<char>, Seq<(Seq<char>, u32)>)>, Seq<Seq<char>>)
    decreases frames.len(),
{
    if frames.len() == 0 {
        (frames, done)
    } else if frames.last().1.len() == 0 {
        settle(frames.drop_last(), done.push(frames.last().0))
    } else {
        (frames, done)
    }
}

/// What `step` promises: after settling all finished documents, either the
/// stack is empty and the closure is complete, or the next unresolved
/// reference of the innermost open document is handed out and dropped from
/// that document's pending list.
pub open spec fn step_post(b: ClosureBuilder, r: ClosureStep) -> bool {
    let settled = settle(builder_frames(b), builder_done(b));
    if settled.0.len() == 0 {
        r matches ClosureStep::Done(texts) && texts@.map_values(|s: String| s@) == settled.1
    } else {
        r matches ClosureStep::Fetch(reference, next) && ref_model(reference) == settled.0.last().1[0]
            && builder_frames(next) == settled.0.update(
            settled.0.len() - 1,
            (settled.0.last().0, settled.0.last().1.skip(1)),
        ) && builder_done(next) == settled.1
    }
}

impl ClosureBuilder {
    /// Begins the linearization at the root document.
    pub fn start(root: RegisteredSchema) -> (r: ClosureBuilder)
        ensures
            builder_frames(r) == seq![(root.schema@, root.references@.map_values(|x: SchemaReference| ref_model(x)))],
            builder_done(r).len() == 0,
    {
        let mut frames: Vec<ClosureFrame> = Vec::new();
        frames.push(ClosureFrame { text: root.schema, pending: root.references });
        let b = ClosureBuilder { frames, done: Vec::new() };
        proof {
            assert(builder_frames(b) =~= seq![frame_model(b.frames@[0])]);
            assert(builder_done(b) =~= Seq::<Seq<char>>::empty());
        }
        b
    }

    /// Settles finished documents, then either asks for the next referenced
    /// document or hands back the complete closure.
    #[verifier::loop_isolation(false)]
    pub fn step(self) -> (r: ClosureStep)
        ensures
            step_post(self, r),
    {
        let ClosureBuilder { mut frames, mut done } = self;
        loop
            invariant
                settle(builder_frames(self), builder_done(self)) == settle(
                    frames@.map_values(|f: ClosureFrame| frame_model(f)),
                    done@.map_values(|s: String| s@),
                ),
            decreases frames@.len(),
        {
            let ghost pre_frames = frames@.map_values(|f: ClosureFrame| frame_model(f));
            let ghost pre_done = done@.map_values(|s: String| s@);
            if frames.len() == 0 {
                return ClosureStep::Done(done);
            }
            let top = frames.pop().unwrap();
            proof {
                assert(pre_frames.last() == frame_model(top));
                assert(pre_frames.drop_last() =~= frames@.map_values(
                    |f: ClosureFrame| frame_model(f),
                ));
            }
            if top.pending.len() == 0 {
                done.push(top.text);
                proof {
                    assert(pre_done.push(top.text@) =~= done@.map_values(|s: String| s@));
                }
            } else {
                let mut top = top;
                let reference = top.pending.remove(0);
                proof {
                    assert(frame_model(top).1 =~= pre_frames.last().1.skip(1));
                }
                frames.push(top);
                let next = ClosureBuilder { frames, done };
                proof {
                    assert(builder_frames(next) =~= pre_frames.update(
                        pre_frames.len() - 1,
                        (pre_frames.last().0, pre_frames.last().1.skip(1)),
                    ));
                    assert(builder_done(next) =~= pre_done);
                }
                return ClosureStep::Fetch(reference, next);
            }
        }
    }

    /// Feeds in the document a `Fetch` step asked for: it becomes the new
    /// innermost open document, and its own references will be resolved before
    /// its text enters the closure.
    pub fn supply(self, fetched: RegisteredSchema) -> (r: ClosureBuilder)
        ensures
            builder_frames(r) == builder_frames(self).push(
                (fetched.schema@, fetched.references@.map_values(|x: SchemaReference| ref_model(x))),
            ),
            builder_done(r) == builder_done(self),
    {
        let ClosureBuilder { mut frames, done } = self;
        frames.push(ClosureFrame { text: fetched.schema, pending: fetched.references });
        let b = ClosureBuilder { frames, done };
        proof {
            assert(builder_frames(b) =~= builder_frames(self).push(
                (fetched.schema@, fetched.references@.map_values(
                    |x: SchemaReference| ref_model(x),
                )),
            ));
        }
        b
    }
}

/// A reference chain root -> a -> b linearizes dependency-first. Run against
/// a root document whose single reference fetches `a`, whose single reference
/// in turn fetches `b`, with `b` referencing nothing, the builder asks for
/// exactly those two references in that order and completes with the closure
/// [b's text, a's text, root's text]: every text follows the texts it depends
/// on, and the root's text is the final element.
pub proof fn lemma_reference_chain(
    root_text: Seq<char>,
    ra: (Seq<char>, u32),
    a_text: Seq<char>,
    rb: (Seq<char>, u32),
    b_text: Seq<char>,
)
    ensures
        ({
            let s0 = seq![(root_text, seq![ra])];
            settle(s0, Seq::empty()) == (s0, Seq::<Seq<char>>::empty()) && s0.last().1[0] == ra
        }),
        ({
            let s1 = seq![(root_text, Seq::<(Seq<char>, u32)>::empty()), (a_text, seq![rb])];
            settle(s1, Seq::empty()) == (s1, Seq::<Seq<char>>::empty()) && s1.last().1[0] == rb
        }),
        ({
            let s2 = seq![
                (root_text, Seq::<(Seq<char>, u32)>::empty()),
                (a_text, Seq::<(Seq<char>, u32)>::empty()),
                (b_text, Seq::<(Seq<char>, u32)>::empty()),
            ];
            settle(s2, Seq::empty()) == (
                Seq::<(Seq<char>, Seq<(Seq<char>, u32)>)>::empty(),
                seq![b_text, a_text, root_text],
            )
        }),
{
    let s0 = seq![(root_text, seq![ra])];
    assert(settle(s0, Seq::empty()) == (s0, Seq::<Seq<char>>::empty()));
    let s2 = seq![
        (root_text, Seq::<(Seq<char>, u32)>::empty()),
        (a_text, Seq::<(Seq<char>, u32)>::empty()),
        (b_text, Seq::<(Seq<char>, u32)>::empty()),
    ];
    let d0 = Seq::<Seq<char>>::empty();
    assert(s2.drop_last() =~= seq![
        (root_text, Seq::<(Seq<char>, u32)>::empty()),
        (a_text, Seq::<(Seq<char>, u32)>::empty()),
    ]);
    assert(s2.drop_last().drop_last() =~= seq![(root_text, Seq::<(Seq<char>, u32)>::empty())]);
    assert(s2.drop_last().drop_last().drop_last() =~= Seq::<(
        Seq<char>,
        Seq<(Seq<char>, u32)>,
    )>::empty());
    assert(d0.push(b_text).push(a_text).push(root_text) =~= seq![b_text, a_text, root_text]);
    let t2 = s2.drop_last();
    let t1 = t2.drop_last();
    let t0 = t1.drop_last();
    assert(settle(s2, d0) == settle(t2, d0.push(b_text)));
    assert(settle(t2, d0.push(b_text)) == settle(t1, d0.push(b_text).push(a_text)));
    assert(settle(t1, d0.push(b_text).push(a_text)) == settle(
        t0,
        d0.push(b_text).push(a_text).push(root_text),
    ));
    assert(settle(t0, d0.push(b_text).push(a_text).push(root_text)) == (
        t0,
        seq![b_text, a_text, root_text],
    ));
}

} // verus!
