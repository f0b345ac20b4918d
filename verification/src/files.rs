//! Paths: their order in the file explorer, and the parts of a path the
//! editor looks at.
use vstd::prelude::*;
use vstd::utf8::encode_utf8;

verus! {

/// `a` comes strictly before `b` in lexicographic byte order.
pub open spec fn bytes_lt(a: Seq<u8>, b: Seq<u8>) -> bool
    decreases a.len(),
{
    if a.len() == 0 {
        b.len() > 0
    } else if b.len() == 0 {
        false
    } else if a[0] != b[0] {
        a[0] < b[0]
    } else {
        bytes_lt(a.drop_first(), b.drop_first())
    }
}

/// The order of paths in the file explorer: by the bytes of their UTF-8
/// encoding, the order of std's `Path` for the entries of one directory.
pub open spec fn path_lt(a: Seq<char>, b: Seq<char>) -> bool {
    bytes_lt(encode_utf8(a), encode_utf8(b))
}

pub proof fn lemma_bytes_lt_irrefl(a: Seq<u8>)
    ensures
        !bytes_lt(a, a),
    decreases a.len(),
{
    if a.len() > 0 {
        lemma_bytes_lt_irrefl(a.drop_first());
    }
}

pub proof fn lemma_bytes_lt_total(a: Seq<u8>, b: Seq<u8>)
    ensures
        bytes_lt(a, b) || a == b || bytes_lt(b, a),
    decreases a.len(),
{
    if a.len() > 0 && b.len() > 0 && a[0] == b[0] {
        lemma_bytes_lt_total(a.drop_first(), b.drop_first());
        if a.drop_first() == b.drop_first() {
            assert(a =~= seq![a[0]] + a.drop_first());
            assert(b =~= seq![b[0]] + b.drop_first());
        }
    } else if a.len() == 0 && b.len() == 0 {
        assert(a =~= b);
    }
}

pub proof fn lemma_bytes_lt_trans(a: Seq<u8>, b: Seq<u8>, c: Seq<u8>)
    requires
        bytes_lt(a, b),
        bytes_lt(b, c),
    ensures
        bytes_lt(a, c),
    decreases a.len(),
{
    if a.len() > 0 && b.len() > 0 && c.len() > 0 && a[0] == b[0] && b[0] == c[0] {
        lemma_bytes_lt_trans(a.drop_first(), b.drop_first(), c.drop_first());
    }
}

pub proof fn lemma_bytes_lt_asym(a: Seq<u8>, b: Seq<u8>)
    requires
        bytes_lt(a, b),
    ensures
        !bytes_lt(b, a),
{
    if bytes_lt(b, a) {
        lemma_bytes_lt_trans(a, b, a);
        lemma_bytes_lt_irrefl(a);
    }
}

/// Whether `a` comes strictly before `b` in path order.
pub fn path_less(a: &String, b: &String) -> (r: bool)
    ensures
        r == path_lt(a@, b@),
{
    let x = a.as_str().as_bytes();
    let y = b.as_str().as_bytes();
    let mut i: usize = 0;
    assert(x@.skip(0) =~= x@);
    assert(y@.skip(0) =~= y@);
    while i < x.len() && i < y.len()
        invariant
            i <= x@.len(),
            i <= y@.len(),
            x@ == encode_utf8(a@),
            y@ == encode_utf8(b@),
            bytes_lt(x@, y@) == bytes_lt(x@.skip(i as int), y@.skip(i as int)),
        decreases x@.len() - i,
    {
        if x[i] != y[i] {
            return x[i] < y[i];
        }
        assert(x@.skip(i as int).drop_first() =~= x@.skip(i + 1));
        assert(y@.skip(i as int).drop_first() =~= y@.skip(i + 1));
        i = i + 1;
    }
    i < y.len()
}

/// `v` lists its paths in path order.
pub open spec fn sorted_paths(v: Seq<String>) -> bool {
    forall|i: int, j: int| 0 <= i < j < v.len() ==> !path_lt(#[trigger] v[j]@, #[trigger] v[i]@)
}

/// The paths of `v` in path order; paths that compare equal keep their order.
pub fn sort_paths(v: Vec<String>) -> (r: Vec<String>)
    ensures
        r@.to_multiset() == v@.to_multiset(),
        sorted_paths(r@),
{
    let mut out: Vec<String> = Vec::new();
    let mut src = v;
    let ghost orig = src@;
    proof {
        broadcast use vstd::multiset::group_multiset_axioms;
        vstd::seq_lib::to_multiset_len(out@);
        vstd::multiset::lemma_multiset_empty_len(out@.to_multiset());
        assert(out@.to_multiset().add(src@.to_multiset()) =~= orig.to_multiset());
    }
    while src.len() > 0
        invariant
            out@.to_multiset().add(src@.to_multiset()) == orig.to_multiset(),
            sorted_paths(out@),
        decreases src.len(),
    {
        let ghost src0 = src@;
        let e = src.remove(0);
        proof {
            assert(src@ == src0.remove(0));
            vstd::seq_lib::to_multiset_remove(src0, 0);
            vstd::seq_lib::to_multiset_contains(src0, src0[0]);
            assert(src0.contains(src0[0]));
        }
        let mut j: usize = 0;
        while j < out.len() && !path_less(&e, &out[j])
            invariant
                j <= out.len(),
                forall|k: int| 0 <= k < j ==> !path_lt(e@, #[trigger] out@[k]@),
            decreases out.len() - j,
        {
            j = j + 1;
        }
        let ghost before = out@;
        out.insert(j, e);
        proof {
            assert forall|a: int, b: int| 0 <= a < b < out@.len() implies !path_lt(
                #[trigger] out@[b]@,
                #[trigger] out@[a]@,
            ) by {
                if a < j && b == j {
                    lemma_bytes_lt_total(encode_utf8(e@), encode_utf8(before[a]@));
                    if bytes_lt(encode_utf8(e@), encode_utf8(before[a]@)) {
                    } else if encode_utf8(e@) == encode_utf8(before[a]@) {
                        lemma_bytes_lt_irrefl(encode_utf8(e@));
                    } else {
                        lemma_bytes_lt_asym(encode_utf8(before[a]@), encode_utf8(e@));
                    }
                } else if a == j && b > j {
                    // e < before[j] <= before[b - 1]
                    assert(path_lt(e@, before[j as int]@));
                    if b - 1 > j {
                        assert(!path_lt(before[b - 1]@, before[j as int]@));
                        lemma_bytes_lt_total(encode_utf8(before[j as int]@), encode_utf8(before[b - 1]@));
                        if bytes_lt(encode_utf8(before[j as int]@), encode_utf8(before[b - 1]@)) {
                            lemma_bytes_lt_trans(encode_utf8(e@), encode_utf8(before[j as int]@), encode_utf8(before[b - 1]@));
                        }
                    }
                    lemma_bytes_lt_asym(encode_utf8(e@), encode_utf8(before[b - 1]@));
                } else if a < j && b > j {
                    assert(out@[a] == before[a]);
                    assert(out@[b] == before[b - 1]);
                } else if a < j && b < j {
                    assert(out@[a] == before[a]);
                    assert(out@[b] == before[b]);
                } else {
                    assert(out@[a] == before[a - 1]);
                    assert(out@[b] == before[b - 1]);
                }
            }
            vstd::seq_lib::to_multiset_insert(before, j as int, e);
            broadcast use vstd::multiset::group_multiset_axioms;
            assert(out@.to_multiset().add(src@.to_multiset()) =~= before.to_multiset().add(src0.to_multiset()));
        }
    }
    proof {
        broadcast use vstd::multiset::group_multiset_axioms;
        vstd::seq_lib::to_multiset_len(src@);
        vstd::multiset::lemma_multiset_empty_len(src@.to_multiset());
        assert(out@.to_multiset().add(src@.to_multiset()) =~= out@.to_multiset());
    }
    out
}

/// The last component of a path, as std's `Path::file_name` gives it.
pub uninterp spec fn file_name_of(p: Seq<char>) -> Option<Seq<char>>;

/// The extension of a path's last component, as std's `Path::extension`
/// gives it.
pub uninterp spec fn extension_of(p: Seq<char>) -> Option<Seq<char>>;

/// A path without its last component, as std's `Path::parent` gives it.
pub uninterp spec fn parent_of(p: Seq<char>) -> Option<Seq<char>>;

/// `base` with `name` appended, as std's `Path::join` builds it.
pub uninterp spec fn joined_path(base: Seq<char>, name: Seq<char>) -> Seq<char>;

/// Whether two paths have the same components, as std's `Path` `==` decides.
pub uninterp spec fn same_path(a: Seq<char>, b: Seq<char>) -> bool;

/// The text of an optional string.
pub open spec fn opt_view(o: Option<String>) -> Option<Seq<char>> {
    match o {
        Some(s) => Some(s@),
        None => None,
    }
}

/// std's `Path::file_name`; the result is named by `file_name_of`.
#[verifier::external_body]
pub(crate) fn file_name(p: &str) -> (r: Option<String>)
    ensures
        opt_view(r) == file_name_of(p@),
{
    std::path::Path::new(p).file_name().map(|n| n.to_string_lossy().into_owned())
}

/// std's `Path::extension`; the result is named by `extension_of`.
#[verifier::external_body]
pub(crate) fn extension(p: &str) -> (r: Option<String>)
    ensures
        opt_view(r) == extension_of(p@),
{
    std::path::Path::new(p).extension().map(|n| n.to_string_lossy().into_owned())
}

/// std's `Path::parent`; the result is named by `parent_of`.
#[verifier::external_body]
pub(crate) fn parent(p: &str) -> (r: Option<String>)
    ensures
        opt_view(r) == parent_of(p@),
{
    std::path::Path::new(p).parent().map(|n| n.to_string_lossy().into_owned())
}

/// std's `Path::join`; the result is named by `joined_path`.
#[verifier::external_body]
pub(crate) fn join_path(base: &str, name: &str) -> (r: String)
    ensures
        r@ == joined_path(base@, name@),
{
    std::path::Path::new(base).join(name).to_string_lossy().into_owned()
}

/// std's `==` on paths; the result is named by `same_path`.
#[verifier::external_body]
pub(crate) fn paths_equal(a: &str, b: &str) -> (r: bool)
    ensures
        r == same_path(a@, b@),
{
    std::path::Path::new(a) == std::path::Path::new(b)
}

} // verus!
