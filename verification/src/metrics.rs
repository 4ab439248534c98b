//! Request metrics: path normalisation that keeps label cardinality low.
use vstd::prelude::*;
use vstd::utf8::*;
use crate::text::{is_digit, count_char, split_seq, str_chars, split_chars, string_from_chars, count_occurrences};

verus! {

/// A path segment that identifies one record: 36 bytes with four dashes (a UUID),
/// or a non-empty run of ASCII digits.
pub open spec fn is_id_segment(seg: Seq<char>) -> bool {
    (encode_utf8(seg).len() == 36 && count_char(seg, '-') == 4)
        || (seg.len() > 0 && forall|i: int| 0 <= i < seg.len() ==> is_digit(#[trigger] seg[i]))
}

/// A segment as it is reported: `:id` for an identifier, else unchanged.
pub open spec fn normalized_segment(seg: Seq<char>) -> Seq<char> {
    if is_id_segment(seg) {
        ":id"@
    } else {
        seg
    }
}

/// The segments joined with `/` between them.
pub open spec fn join_slash(segs: Seq<Seq<char>>) -> Seq<char>
    decreases segs.len(),
{
    if segs.len() == 0 {
        Seq::empty()
    } else if segs.len() == 1 {
        segs[0]
    } else {
        join_slash(segs.drop_last()) + seq!['/'] + segs.last()
    }
}

/// `path` with every identifier segment replaced by `:id`.
pub open spec fn normalized_path(path: Seq<char>) -> Seq<char> {
    let segs = split_seq(path, '/');
    join_slash(Seq::new(segs.len(), |i: int| normalized_segment(segs[i])))
}

fn all_digits(v: &Vec<char>) -> (r: bool)
    ensures
        r == forall|i: int| 0 <= i < v@.len() ==> is_digit(#[trigger] v@[i]),
{
    let mut i: usize = 0;
    while i < v.len()
        invariant
            i <= v@.len(),
            forall|j: int| 0 <= j < i ==> is_digit(#[trigger] v@[j]),
        decreases v@.len() - i,
    {
        if !(v[i] >= '0' && v[i] <= '9') {
            return false;
        }
        i += 1;
    }
    true
}

fn normalize_segment(seg: &Vec<char>) -> (r: Vec<char>)
    ensures
        r@ == normalized_segment(seg@),
{
    let s = string_from_chars(seg);
    let is_uuid = s.as_str().as_bytes().len() == 36 && count_occurrences(seg, '-') == 4;
    if is_uuid || (seg.len() > 0 && all_digits(seg)) {
        str_chars(":id")
    } else {
        let mut out: Vec<char> = Vec::new();
        let mut i: usize = 0;
        while i < seg.len()
            invariant
                i <= seg@.len(),
                out@ == seg@.subrange(0, i as int),
            decreases seg@.len() - i,
        {
            out.push(seg[i]);
            i += 1;
            assert(out@ =~= seg@.subrange(0, i as int));
        }
        assert(out@ =~= seg@);
        out
    }
}

/// Replaces the dynamic segments of a request path (UUIDs, numeric IDs) with `:id`.
pub fn normalize_path(path: &str) -> (r: String)
    ensures
        r@ == normalized_path(path@),
{
    let cs = str_chars(path);
    let segs = split_chars(&cs, '/');
    let ghost sp = split_seq(path@, '/');
    let ghost norm = Seq::new(sp.len(), |i: int| normalized_segment(sp[i]));
    let mut out: Vec<char> = Vec::new();
    let mut k: usize = 0;
    while k < segs.len()
        invariant
            cs@ == path@,
            segs@.len() == sp.len(),
            norm.len() == sp.len(),
            forall|j: int| 0 <= j < segs@.len() ==> (#[trigger] segs@[j])@ == sp[j],
            forall|j: int| 0 <= j < norm.len() ==> #[trigger] norm[j] == normalized_segment(sp[j]),
            k <= segs@.len(),
            out@ == join_slash(norm.take(k as int)),
        decreases segs@.len() - k,
    {
        let piece = normalize_segment(&segs[k]);
        let ghost before = out@;
        if k > 0 {
            out.push('/');
        }
        let mut i: usize = 0;
        let ghost mid = out@;
        while i < piece.len()
            invariant
                i <= piece@.len(),
                out@ == mid + piece@.subrange(0, i as int),
            decreases piece@.len() - i,
        {
            out.push(piece[i]);
            i += 1;
            assert(out@ =~= mid + piece@.subrange(0, i as int));
        }
        proof {
            assert(piece@.subrange(0, piece@.len() as int) =~= piece@);
            assert(norm.take(k + 1).drop_last() =~= norm.take(k as int));
            if k == 0 {
                assert(out@ =~= join_slash(norm.take(1)));
            } else {
                assert(out@ =~= join_slash(norm.take(k + 1)));
            }
        }
        k += 1;
    }
    assert(norm.take(norm.len() as int) =~= norm);
    string_from_chars(&out)
}

} // verus!
