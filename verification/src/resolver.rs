use vstd::prelude::*;

use vstd::slice::slice_index_get;

use crate::error::SRCError;

verus! {

/// One message declaration of a schema document: its name as ASCII bytes and
/// its nested message declarations in declaration order.
pub struct MessageNode {
    pub name: Vec<u8>,
    pub children: Vec<MessageNode>,
}

/// The structural shape of a root schema document: the package name, the
/// import paths, and the top-level message declarations in declaration order.
pub struct MessageResolver {
    pub package: Option<Vec<u8>>,
    pub imports: Vec<String>,
    pub roots: Vec<MessageNode>,
}

/// All bytes are ASCII.
pub open spec fn ascii_seq(b: Seq<u8>) -> bool {
    forall|i: int| 0 <= i < b.len() ==> b[i] < 128
}

/// The names along an index path: element `k` of the path picks the declared
/// message at that position of the current nesting level, whose children
/// become the next level. `None` when an index is out of range.
pub open spec fn walk_names(nodes: Seq<MessageNode>, path: Seq<i32>) -> Option<Seq<Seq<u8>>>
    decreases path.len(),
{
    if path.len() == 0 {
        Some(Seq::empty())
    } else if path[0] < 0 || path[0] >= nodes.len() {
        None
    } else {
        match walk_names(nodes[path[0] as int].children@, path.skip(1)) {
            None => None,
            Some(rest) => Some(seq![nodes[path[0] as int].name@] + rest),
        }
    }
}

/// Name segments joined with a dot.
pub open spec fn joined(names: Seq<Seq<u8>>) -> Seq<u8>
    decreases names.len(),
{
    if names.len() == 0 {
        Seq::empty()
    } else if names.len() == 1 {
        names[0]
    } else {
        names[0] + seq![46u8] + joined(names.skip(1))
    }
}

/// The fully qualified name: the package, when there is one, then the walked
/// message names, all joined with dots.
pub open spec fn qualified(package: Option<Seq<u8>>, names: Seq<Seq<u8>>) -> Seq<u8> {
    match package {
        Some(p) => p + seq![46u8] + joined(names),
        None => joined(names),
    }
}

/// The fully qualified message name an index path denotes against a resolver,
/// or `None` when the path is empty or leaves the declaration tree.
pub open spec fn resolve_spec(r: MessageResolver, path: Seq<i32>) -> Option<Seq<u8>> {
    if path.len() == 0 {
        None
    } else {
        match walk_names(r.roots@, path) {
            None => None,
            Some(names) => Some(
                qualified(
                    match r.package {
                        Some(p) => Some(p@),
                        None => None,
                    },
                    names,
                ),
            ),
        }
    }
}

/// Appends the bytes of `src` to `dst`.
fn append_bytes(dst: &mut Vec<u8>, src: &Vec<u8>)
    ensures
        final(dst)@ == old(dst)@ + src@,
{
    let mut j: usize = 0;
    while j < src.len()
        invariant
            j <= src@.len(),
            dst@ == old(dst)@ + src@.subrange(0, j as int),
        decreases src@.len() - j,
    {
        dst.push(src[j]);
        proof {
            assert(old(dst)@ + src@.subrange(0, j as int) + seq![src@[j as int]] =~= old(dst)@
                + src@.subrange(0, j + 1));
        }
        j = j + 1;
    }
    proof {
        assert(src@.subrange(0, src@.len() as int) =~= src@);
    }
}

proof fn lemma_joined_push(names: Seq<Seq<u8>>, n: Seq<u8>)
    ensures
        joined(names.push(n)) == if names.len() == 0 {
            n
        } else {
            joined(names) + seq![46u8] + n
        },
    decreases names.len(),
{
    if names.len() == 0 {
        assert(names.push(n)[0] == n);
        assert(joined(names.push(n)) == n);
    } else if names.len() == 1 {
        assert(names.push(n).skip(1) =~= seq![n]);
        assert(joined(seq![n]) == n);
    } else {
        lemma_joined_push(names.skip(1), n);
        assert(names.push(n).skip(1) =~= names.skip(1).push(n));
        assert(names.push(n)[0] == names[0]);
    }
}

/// Relies on `String::from_utf8`: ASCII bytes are valid UTF-8 and convert to
/// the string whose characters are exactly those bytes.
#[verifier::external_body]
fn ascii_to_string(bytes: Vec<u8>) -> (r: String)
    requires
        ascii_seq(bytes@),
    ensures
        r@ == bytes@.map_values(|b: u8| b as char),
{
    String::from_utf8(bytes).unwrap_or_default()
}

/// Resolves an index path to the fully qualified name of the message it
/// denotes, exactly as `resolve_spec` reads it; a path that is empty or leaves
/// the declaration tree gives a fresh non-retryable error.
#[verifier::loop_isolation(false)]
pub fn resolve_name(resolver: &MessageResolver, index: &Vec<i32>) -> (r: Result<String, SRCError>)
    ensures
        match resolve_spec(*resolver, index@) {
            Some(b) => {
                if ascii_seq(b) {
                    r matches Ok(s) && s@ == b.map_values(|c: u8| c as char)
                } else {
                    r matches Err(e) && !e.retriable && !e.cached && e.error@
                        == "message index path not found in schema"@
                }
            },
            None => r matches Err(e) && !e.retriable && !e.cached && e.error@
                == "message index path not found in schema"@,
        },
{
    let not_found_msg = "message index path not found in schema";
    if index.len() == 0 {
        return Err(SRCError::new(not_found_msg, None, false));
    }
    let mut acc: Vec<u8> = Vec::new();
    match &resolver.package {
        Some(p) => {
            append_bytes(&mut acc, p);
            acc.push(46);
        },
        None => {},
    }
    let ghost prefix: Seq<u8> = acc@;
    let ghost pkg: Option<Seq<u8>> = match &resolver.package {
        Some(p) => Some(p@),
        None => None,
    };
    let mut cur: &Vec<MessageNode> = &resolver.roots;
    let mut k: usize = 0;
    let ghost mut names: Seq<Seq<u8>> = Seq::empty();
    proof {
        assert(acc@ =~= prefix + joined(names));
        if pkg is Some {
            assert(Seq::empty() + pkg->Some_0 =~= pkg->Some_0);
            assert(pkg->Some_0.push(46u8) =~= pkg->Some_0 + seq![46u8]);
        }
        assert(index@.skip(0) =~= index@);
        let m = walk_names(resolver.roots@, index@);
        if m is Some {
            assert(Seq::<Seq<u8>>::empty() + m->Some_0 =~= m->Some_0);
        }
    }
    while k < index.len()
        invariant
            0 <= k <= index@.len(),
            names.len() == k,
            acc@ == prefix + joined(names),
            walk_names(resolver.roots@, index@) == match walk_names(cur@, index@.skip(k as int)) {
                Some(rest) => Some(names + rest),
                None => None::<Seq<Seq<u8>>>,
            },
        decreases index@.len() - k,
    {
        let idx = index[k];
        if idx < 0 || idx as usize >= cur.len() {
            return Err(SRCError::new(not_found_msg, None, false));
        }
        let node = &cur[idx as usize];
        if k > 0 {
            acc.push(46);
            proof {
                assert(acc@ =~= prefix + joined(names) + seq![46u8]);
            }
        }
        append_bytes(&mut acc, &node.name);
        proof {
            lemma_joined_push(names, node.name@);
            let m = walk_names(node.children@, index@.skip(k as int).skip(1));
            assert(index@.skip(k as int).skip(1) =~= index@.skip(k as int + 1));
            if m is Some {
                assert(names + (seq![node.name@] + m->Some_0) =~= names.push(node.name@)
                    + m->Some_0);
            }
        }
        proof {
            names = names.push(node.name@);
        }
        cur = &node.children;
        k = k + 1;
        proof {
            if k == 1 && pkg is None {
                assert(prefix + joined(names) =~= joined(names));
            }
        }
    }
    proof {
        assert(index@.skip(k as int) =~= Seq::<i32>::empty());
        assert(walk_names(cur@, Seq::<i32>::empty()) == Some(Seq::<Seq<u8>>::empty()));
        assert(names + Seq::<Seq<u8>>::empty() =~= names);
        if pkg is Some {
            assert(acc@ == qualified(pkg, names));
        }
    }
    if !is_ascii_bytes(&acc) {
        return Err(SRCError::new(not_found_msg, None, false));
    }
    let full = ascii_to_string(acc);
    Ok(full)
}

/// One open block while scanning a schema document: a message declaration
/// collecting its nested messages, or any other braced block.
enum Frame {
    Msg(MessageNode),
    Block,
}

/// Whether a byte can be part of an identifier token (letters, digits,
/// underscore, dot).
fn is_ident_byte(c: u8) -> (r: bool)
    ensures
        r == (48 <= c <= 57 || 65 <= c <= 90 || 97 <= c <= 122 || c == 95 || c == 46),
{
    (48 <= c && c <= 57) || (65 <= c && c <= 90) || (97 <= c && c <= 122) || c == 95 || c == 46
}

/// Whether the vector holds exactly the bytes of the slice.
fn bytes_eq(a: &Vec<u8>, s: &[u8]) -> (r: bool)
    ensures
        r == (a@ == s@),
{
    if a.len() != s.len() {
        return false;
    }
    let mut j: usize = 0;
    while j < a.len()
        invariant
            j <= a@.len(),
            a@.len() == s@.len(),
            forall|i: int| 0 <= i < j ==> a@[i] == s@[i],
        decreases a@.len() - j,
    {
        if a[j] != *slice_index_get(s, j) {
            return false;
        }
        j = j + 1;
    }
    proof {
        assert(a@ =~= s@);
    }
    true
}

impl MessageResolver {
    /// Scans a schema document for its structural shape: the package
    /// declaration, the import paths, and the nesting of message declarations
    /// in declaration order. Comments, string literals and non-message blocks
    /// are skipped; braces inside them do not disturb the nesting.
    #[verifier::loop_isolation(false)]
    pub fn new(raw: &str) -> (r: MessageResolver) {
        let b = raw.as_bytes();
        let n = b.len();
        let mut i: usize = 0;
        let mut package: Option<Vec<u8>> = None;
        let mut imports: Vec<String> = Vec::new();
        let mut roots: Vec<MessageNode> = Vec::new();
        let mut frames: Vec<Frame> = Vec::new();
        // True at the start of a declaration: after `;`, `{`, `}` or the
        // start of the file, where a `message`, `package` or `import` keyword
        // begins a new statement rather than naming a field.
        let mut boundary: bool = true;
        // 0: none pending; 1: the next identifier names a message; 2: the
        // next identifier names the package; 3: the next string literal is an
        // import path.
        let mut mode: u8 = 0;
        let mut pending: Option<Vec<u8>> = None;
        while i < n
            invariant
                i <= n,
                n == b@.len(),
            decreases n - i,
        {
            let c = *slice_index_get(b, i);
            if c == 32 || c == 9 || c == 13 || c == 10 {
                i = i + 1;
            } else if c == 47 && i + 1 < n && *slice_index_get(b, i + 1) == 47 {
                i = i + 2;
                let ghost i0: int = i as int;
                while i < n && *slice_index_get(b, i) != 10
                    invariant
                        i0 <= i <= n,
                    decreases n - i,
                {
                    i = i + 1;
                }
            } else if c == 47 && i + 1 < n && *slice_index_get(b, i + 1) == 42 {
                i = i + 2;
                let ghost i0: int = i as int;
                while n - i > 1 && !(*slice_index_get(b, i) == 42 && *slice_index_get(b, i + 1)
                    == 47)
                    invariant
                        i0 <= i <= n,
                    decreases n - i,
                {
                    i = i + 1;
                }
                if n - i > 1 {
                    i = i + 2;
                } else {
                    i = n;
                }
            } else if c == 34 {
                i = i + 1;
                let mut lit: Vec<u8> = Vec::new();
                let mut closed: bool = false;
                let ghost i0: int = i as int;
                while i < n && !closed
                    invariant
                        i0 <= i <= n,
                    decreases n - i,
                {
                    let d = *slice_index_get(b, i);
                    if d == 92 {
                        if n - i > 1 {
                            lit.push(*slice_index_get(b, i + 1));
                            i = i + 2;
                        } else {
                            i = n;
                        }
                    } else if d == 34 {
                        i = i + 1;
                        closed = true;
                    } else {
                        lit.push(d);
                        i = i + 1;
                    }
                }
                if closed && mode == 3 {
                    if is_ascii_bytes(&lit) {
                        imports.push(ascii_to_string(lit));
                    }
                    mode = 0;
                }
                boundary = false;
            } else if is_ident_byte(c) {
                let mut tok: Vec<u8> = Vec::new();
                tok.push(c);
                i = i + 1;
                let ghost i0: int = i as int;
                while i < n && is_ident_byte(*slice_index_get(b, i))
                    invariant
                        i0 <= i <= n,
                    decreases n - i,
                {
                    tok.push(*slice_index_get(b, i));
                    i = i + 1;
                }
                if mode == 1 {
                    pending = Some(tok);
                    mode = 0;
                } else if mode == 2 {
                    if frames.len() == 0 {
                        package = Some(tok);
                    }
                    mode = 0;
                } else if mode == 3 {
                    // `import public "p";` or `import weak "p";`: the path
                    // literal is still to come.
                } else if boundary && bytes_eq(&tok, "message".as_bytes()) {
                    mode = 1;
                } else if boundary && frames.len() == 0 && bytes_eq(&tok, "package".as_bytes()) {
                    mode = 2;
                } else if boundary && bytes_eq(&tok, "import".as_bytes()) {
                    mode = 3;
                }
                boundary = false;
            } else if c == 123 {
                let p = pending;
                pending = None;
                match p {
                    Some(name) => {
                        frames.push(Frame::Msg(MessageNode { name, children: Vec::new() }));
                    },
                    None => {
                        frames.push(Frame::Block);
                    },
                }
                boundary = true;
                i = i + 1;
            } else if c == 125 {
                match frames.pop() {
                    Some(Frame::Msg(node)) => {
                        match frames.pop() {
                            Some(Frame::Msg(parent)) => {
                                let mut parent = parent;
                                parent.children.push(node);
                                frames.push(Frame::Msg(parent));
                            },
                            Some(Frame::Block) => {
                                frames.push(Frame::Block);
                            },
                            None => {
                                roots.push(node);
                            },
                        }
                    },
                    Some(Frame::Block) => {},
                    None => {},
                }
                boundary = true;
                i = i + 1;
            } else if c == 59 {
                boundary = true;
                mode = 0;
                pending = None;
                i = i + 1;
            } else {
                boundary = false;
                i = i + 1;
            }
        }
        MessageResolver { package, imports, roots }
    }
}

/// Whether every byte is ASCII.
fn is_ascii_bytes(v: &Vec<u8>) -> (r: bool)
    ensures
        r == ascii_seq(v@),
{
    let mut j: usize = 0;
    while j < v.len()
        invariant
            j <= v@.len(),
            forall|i: int| 0 <= i < j ==> v@[i] < 128,
        decreases v@.len() - j,
    {
        if v[j] >= 128 {
            return false;
        }
        j = j + 1;
    }
    true
}

} // verus!
