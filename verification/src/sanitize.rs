use vstd::prelude::*;
use vstd::string::StrSliceExecFns;
use vstd::string::StringExecFns;

verus! {

/// A character that may stay in a derived filename: everything except the
/// path separators, the characters that common filesystems refuse in a file
/// name, and control characters — the C0 range, DEL, and the C1 range.
pub open spec fn is_safe_char(c: char) -> bool {
    &&& c != '/'
    &&& c != '\\'
    &&& c != ':'
    &&& c != '*'
    &&& c != '?'
    &&& c != '"'
    &&& c != '<'
    &&& c != '>'
    &&& c != '|'
    &&& (c as u32) >= 32
    &&& !((c as u32) >= 127 && (c as u32) <= 159)
}

/// The safe characters of `s`, in order, the others stripped.
pub open spec fn keep_safe(s: Seq<char>) -> Seq<char>
    decreases s.len(),
{
    if s.len() == 0 {
        Seq::empty()
    } else {
        keep_safe(s.drop_last()) + (if is_safe_char(s.last()) {
            seq![s.last()]
        } else {
            Seq::<char>::empty()
        })
    }
}

/// Whether every character of `s` is a dot; holds of the empty sequence.
pub open spec fn all_dots(s: Seq<char>) -> bool {
    forall|i: int| 0 <= i < s.len() ==> s[i] == '.'
}

/// What sanitizing a path segment yields: its safe characters in order, or a
/// single underscore where those characters alone would leave an empty or
/// dots-only component, either of which could name the output directory
/// itself or a parent of it.
pub open spec fn sanitize_spec(s: Seq<char>) -> Seq<char> {
    if all_dots(keep_safe(s)) {
        seq!['_']
    } else {
        keep_safe(s)
    }
}

/// Every character that `keep_safe` keeps is safe.
pub proof fn lemma_keep_safe_chars_safe(s: Seq<char>)
    ensures
        forall|i: int| 0 <= i < keep_safe(s).len() ==> is_safe_char(#[trigger] keep_safe(s)[i]),
    decreases s.len(),
{
    if s.len() > 0 {
        lemma_keep_safe_chars_safe(s.drop_last());
        let k = keep_safe(s);
        let kd = keep_safe(s.drop_last());
        assert forall|i: int| 0 <= i < k.len() implies is_safe_char(k[i]) by {
            if i < kd.len() {
                assert(k[i] == kd[i]);
            } else {
                assert(is_safe_char(s.last()));
                assert(k[i] == s.last());
            }
        }
    }
}

/// On a sequence of safe characters, `keep_safe` strips nothing.
pub proof fn lemma_keep_safe_id(s: Seq<char>)
    requires
        forall|i: int| 0 <= i < s.len() ==> is_safe_char(#[trigger] s[i]),
    ensures
        keep_safe(s) == s,
    decreases s.len(),
{
    if s.len() > 0 {
        lemma_keep_safe_id(s.drop_last());
        assert(keep_safe(s) =~= s);
    } else {
        assert(keep_safe(s) =~= s);
    }
}

/// Sanitization is idempotent: sanitizing an already-sanitized segment
/// yields the same segment.
pub proof fn lemma_sanitize_idempotent(s: Seq<char>)
    ensures
        sanitize_spec(sanitize_spec(s)) == sanitize_spec(s),
{
    let k = keep_safe(s);
    if all_dots(k) {
        let u = seq!['_'];
        assert(is_safe_char('_'));
        lemma_keep_safe_id(u);
        assert(u[0] != '.');
        assert(!all_dots(keep_safe(u)));
        assert(sanitize_spec(u) == u);
    } else {
        lemma_keep_safe_chars_safe(s);
        lemma_keep_safe_id(k);
        assert(sanitize_spec(k) == k);
    }
}

/// A sanitized segment is a single safe path component: non-empty, made of
/// safe characters only (no separator can survive), and not made of dots
/// alone, so joining it under the output directory cannot escape it.
pub proof fn lemma_sanitized_component_safe(s: Seq<char>)
    ensures
        sanitize_spec(s).len() > 0,
        forall|i: int|
            0 <= i < sanitize_spec(s).len() ==> is_safe_char(#[trigger] sanitize_spec(s)[i]),
        !all_dots(sanitize_spec(s)),
{
    let k = keep_safe(s);
    if all_dots(k) {
        assert(is_safe_char('_'));
        assert(sanitize_spec(s)[0] == '_');
    } else {
        lemma_keep_safe_chars_safe(s);
        let i = choose|i: int| 0 <= i < k.len() && k[i] != '.';
        assert(k.len() > 0);
    }
}

/// Whether the character may stay in a filename.
pub fn is_safe(c: char) -> (r: bool)
    ensures
        r == is_safe_char(c),
{
    !(c == '/' || c == '\\' || c == ':' || c == '*' || c == '?' || c == '"' || c == '<'
        || c == '>' || c == '|' || (c as u32) < 32 || ((c as u32) >= 127 && (c as u32) <= 159))
}

/// Relies on `Iterator::collect` into `String` over `char`s: the collected
/// string holds exactly the characters of the vector, in order.
#[verifier::external_body]
fn chars_to_string(v: Vec<char>) -> (r: String)
    ensures
        r@ == v@,
{
    v.into_iter().collect()
}

fn all_dots_exec(v: &Vec<char>) -> (r: bool)
    ensures
        r == all_dots(v@),
{
    let mut i: usize = 0;
    while i < v.len()
        invariant
            0 <= i <= v@.len(),
            forall|j: int| 0 <= j < i ==> v@[j] == '.',
        decreases v@.len() - i,
    {
        if v[i] != '.' {
            return false;
        }
        i += 1;
    }
    true
}

/// Strip unsafe characters from one path segment; where nothing usable is
/// left, fall back to a single underscore.
pub fn sanitize_segment(seg: &str) -> (r: String)
    ensures
        r@ == sanitize_spec(seg@),
{
    let len = seg.unicode_len();
    let mut kept: Vec<char> = Vec::new();
    let mut i: usize = 0;
    while i < len
        invariant
            len == seg@.len(),
            0 <= i <= len,
            kept@ == keep_safe(seg@.subrange(0, i as int)),
        decreases len - i,
    {
        let c = seg.get_char(i);
        if is_safe(c) {
            kept.push(c);
        }
        proof {
            let pre = seg@.subrange(0, i as int);
            let post = seg@.subrange(0, i + 1);
            assert(post.drop_last() =~= pre);
            assert(post.last() == seg@[i as int]);
            assert(kept@ =~= keep_safe(post));
        }
        i += 1;
    }
    proof {
        assert(seg@.subrange(0, len as int) =~= seg@);
    }
    if all_dots_exec(&kept) {
        let r = String::from_str("_");
        proof {
            reveal_strlit("_");
            assert(r@ =~= seq!['_']);
        }
        r
    } else {
        chars_to_string(kept)
    }
}

} // verus!
