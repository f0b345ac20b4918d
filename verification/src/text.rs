//! Character and byte positions in UTF-8 text, and the std string
//! operations the editor builds on.
use vstd::prelude::*;
use vstd::string::StrSliceExecFns;
use vstd::string::StringExecFns;
use vstd::utf8::*;

verus! {

/// Number of bytes in the UTF-8 encoding of `c`.
pub open spec fn utf8_width(c: char) -> nat {
    if (c as u32) <= 0x7F {
        1
    } else if (c as u32) <= 0x7FF {
        2
    } else if (c as u32) <= 0xFFFF {
        3
    } else {
        4
    }
}

/// Number of bytes in the UTF-8 encoding of `s`.
pub open spec fn utf8_len(s: Seq<char>) -> nat {
    encode_utf8(s).len()
}

/// Byte offset of the `k`-th character of `s`.
pub open spec fn byte_pos(s: Seq<char>, k: int) -> int {
    utf8_len(s.take(k)) as int
}

/// `b` is the byte offset of some character position of `s`
/// (a character boundary, the end of the text included).
pub open spec fn is_boundary(s: Seq<char>, b: int) -> bool {
    exists|k: int| 0 <= k <= s.len() && byte_pos(s, k) == b
}

/// The character position whose byte offset is `b`.
pub open spec fn char_pos(s: Seq<char>, b: int) -> int {
    choose|k: int| 0 <= k <= s.len() && byte_pos(s, k) == b
}

pub proof fn lemma_encode_add(a: Seq<char>, b: Seq<char>)
    ensures
        encode_utf8(a + b) == encode_utf8(a) + encode_utf8(b),
    decreases a.len(),
{
    if a.len() == 0 {
        assert(a + b =~= b);
        assert(encode_utf8(a) =~= Seq::<u8>::empty());
        assert(encode_utf8(a) + encode_utf8(b) =~= encode_utf8(b));
    } else {
        assert((a + b).drop_first() =~= a.drop_first() + b);
        lemma_encode_add(a.drop_first(), b);
        assert((a + b)[0] == a[0]);
        assert(encode_utf8(a + b) =~= encode_scalar(a[0] as u32) + encode_utf8(a.drop_first() + b));
    }
}

pub proof fn lemma_width_one(c: char)
    ensures
        utf8_len(seq![c]) == utf8_width(c),
        1 <= utf8_width(c) <= 4,
{
    broadcast use vstd::utf8::char_is_scalar;
    assert(seq![c].drop_first() =~= Seq::<char>::empty());
    assert(encode_utf8(seq![c]) =~= encode_scalar(c as u32) + encode_utf8(Seq::<char>::empty()));
    assert(is_scalar(c as u32));
}

pub proof fn lemma_len_add(a: Seq<char>, b: Seq<char>)
    ensures
        utf8_len(a + b) == utf8_len(a) + utf8_len(b),
{
    lemma_encode_add(a, b);
}

pub proof fn lemma_len_push(a: Seq<char>, c: char)
    ensures
        utf8_len(a.push(c)) == utf8_len(a) + utf8_width(c),
{
    assert(a.push(c) =~= a + seq![c]);
    lemma_len_add(a, seq![c]);
    lemma_width_one(c);
}

/// Byte length is at least the character count.
pub proof fn lemma_len_ge(s: Seq<char>)
    ensures
        utf8_len(s) >= s.len(),
    decreases s.len(),
{
    if s.len() > 0 {
        assert(s.drop_last().push(s.last()) =~= s);
        lemma_len_push(s.drop_last(), s.last());
        lemma_len_ge(s.drop_last());
    }
}

/// Byte offsets grow strictly with the character position.
pub proof fn lemma_byte_pos_mono(s: Seq<char>, i: int, j: int)
    requires
        0 <= i <= j <= s.len(),
    ensures
        byte_pos(s, i) + (j - i) <= byte_pos(s, j),
{
    assert(s.take(j) =~= s.take(i) + s.subrange(i, j));
    lemma_len_add(s.take(i), s.subrange(i, j));
    lemma_len_ge(s.subrange(i, j));
}

/// The character position of a byte offset is unique.
pub proof fn lemma_char_pos(s: Seq<char>, k: int)
    requires
        0 <= k <= s.len(),
    ensures
        is_boundary(s, byte_pos(s, k)),
        char_pos(s, byte_pos(s, k)) == k,
{
    let b = byte_pos(s, k);
    assert(is_boundary(s, b));
    let k2 = char_pos(s, b);
    if k2 < k {
        lemma_byte_pos_mono(s, k2, k);
    } else if k < k2 {
        lemma_byte_pos_mono(s, k, k2);
    }
}

pub proof fn lemma_byte_pos_step(s: Seq<char>, k: int)
    requires
        0 <= k < s.len(),
    ensures
        byte_pos(s, k + 1) == byte_pos(s, k) + utf8_width(s[k]),
{
    assert(s.take(k + 1) =~= s.take(k).push(s[k]));
    lemma_len_push(s.take(k), s[k]);
}

/// A byte offset never passes the end of the text, and counts at least
/// the characters before it.
pub proof fn lemma_byte_pos_bounds(s: Seq<char>, k: int)
    requires
        0 <= k <= s.len(),
    ensures
        k <= byte_pos(s, k) <= utf8_len(s),
{
    lemma_byte_pos_mono(s, 0, k);
    lemma_byte_pos_mono(s, k, s.len() as int);
    assert(s.take(s.len() as int) =~= s);
    assert(s.take(0) =~= Seq::<char>::empty());
    assert(encode_utf8(Seq::<char>::empty()) =~= Seq::<u8>::empty());
}

/// Byte offset of the full text is its byte length.
pub proof fn lemma_byte_pos_end(s: Seq<char>)
    ensures
        byte_pos(s, s.len() as int) == utf8_len(s),
{
    assert(s.take(s.len() as int) =~= s);
}

/// Number of bytes of the UTF-8 encoding of `c`; the value of std's
/// `char::len_utf8`.
pub fn char_len_utf8(c: char) -> (n: usize)
    ensures
        n == utf8_width(c),
{
    let v = c as u32;
    if v <= 0x7F {
        1
    } else if v <= 0x7FF {
        2
    } else if v <= 0xFFFF {
        3
    } else {
        4
    }
}

/// std's `str::len`: the number of bytes of the UTF-8 encoding of the text.
#[verifier::external_body]
pub(crate) fn str_byte_len(s: &str) -> (n: usize)
    ensures
        n == utf8_len(s@),
{
    s.len()
}

/// std's `String::insert`: puts `ch` at byte offset `idx`, which must be a
/// character boundary (the call panics otherwise).
#[verifier::external_body]
pub(crate) fn string_insert(s: &mut String, idx: usize, ch: char)
    requires
        is_boundary(old(s)@, idx as int),
    ensures
        final(s)@ == old(s)@.insert(char_pos(old(s)@, idx as int), ch),
{
    s.insert(idx, ch)
}

/// Byte offset of the `k`-th character of `s`.
pub fn prefix_byte_len(s: &String, k: usize) -> (n: usize)
    requires
        k <= s@.len(),
    ensures
        n == byte_pos(s@, k as int),
{
    let total = str_byte_len(s.as_str());
    let pre = s.as_str().substring_char(0, k);
    proof {
        assert(pre@ =~= s@.take(k as int));
        lemma_byte_pos_mono(s@, k as int, s@.len() as int);
        assert(s@.take(s@.len() as int) =~= s@);
    }
    pre.len()
}

/// std's `String::remove`: takes out the character that starts at byte
/// offset `idx`, which must be a character boundary before the end of the
/// text (the call panics otherwise).
#[verifier::external_body]
pub(crate) fn string_remove(s: &mut String, idx: usize) -> (ch: char)
    requires
        is_boundary(old(s)@, idx as int),
        char_pos(old(s)@, idx as int) < old(s)@.len(),
    ensures
        ch == old(s)@[char_pos(old(s)@, idx as int)],
        final(s)@ == old(s)@.remove(char_pos(old(s)@, idx as int)),
{
    s.remove(idx)
}

/// std's `String::truncate`: keeps the text before byte offset `new_len`,
/// which must be a character boundary (the call panics otherwise).
#[verifier::external_body]
pub(crate) fn string_truncate(s: &mut String, new_len: usize)
    requires
        is_boundary(old(s)@, new_len as int),
    ensures
        final(s)@ == old(s)@.take(char_pos(old(s)@, new_len as int)),
{
    s.truncate(new_len)
}

/// The slice `&s[..idx]`; `idx` must be a character boundary.
#[verifier::external_body]
pub(crate) fn str_prefix(s: &str, idx: usize) -> (r: &str)
    requires
        is_boundary(s@, idx as int),
    ensures
        r@ == s@.take(char_pos(s@, idx as int)),
{
    &s[..idx]
}

/// The slice `&s[idx..]`; `idx` must be a character boundary.
#[verifier::external_body]
pub(crate) fn str_suffix(s: &str, idx: usize) -> (r: &str)
    requires
        is_boundary(s@, idx as int),
    ensures
        r@ == s@.skip(char_pos(s@, idx as int)),
{
    &s[idx..]
}

/// std's `==` on string slices: equal exactly when the characters are.
#[verifier::external_body]
pub(crate) fn str_eq(a: &str, b: &str) -> (r: bool)
    ensures
        r == (a@ == b@),
{
    a == b
}

/// The pieces of `s` between the occurrences of `c`, in order; std's
/// `str::split` with a `char` pattern.  There is always at least one piece.
pub open spec fn split_char(s: Seq<char>, c: char) -> Seq<Seq<char>>
    decreases s.len(),
{
    if s.len() == 0 {
        seq![Seq::<char>::empty()]
    } else {
        let rest = split_char(s.drop_last(), c);
        if s.last() == c {
            rest.push(Seq::<char>::empty())
        } else {
            rest.update(rest.len() - 1, rest.last().push(s.last()))
        }
    }
}

/// Splitting always yields at least one piece.
pub proof fn lemma_split_nonempty(s: Seq<char>, c: char)
    ensures
        split_char(s, c).len() >= 1,
    decreases s.len(),
{
    if s.len() > 0 {
        lemma_split_nonempty(s.drop_last(), c);
    }
}

/// A separator at the end starts a new, empty piece.
pub proof fn lemma_split_push_sep(s: Seq<char>, c: char)
    ensures
        split_char(s.push(c), c) == split_char(s, c).push(Seq::<char>::empty()),
{
    assert(s.push(c).drop_last() =~= s);
}

/// Text without the separator extends the last piece.
pub proof fn lemma_split_append_plain(s: Seq<char>, t: Seq<char>, c: char)
    requires
        !t.contains(c),
    ensures
        split_char(s + t, c) == split_char(s, c).update(
            split_char(s, c).len() - 1,
            split_char(s, c).last() + t,
        ),
    decreases t.len(),
{
    lemma_split_nonempty(s, c);
    let p = split_char(s, c);
    if t.len() == 0 {
        assert(s + t =~= s);
        assert(p.last() + t =~= p.last());
        assert(p.update(p.len() - 1, p.last()) =~= p);
    } else {
        let t0 = t.drop_last();
        assert(!t0.contains(c)) by {
            if t0.contains(c) {
                let i = choose|i: int| 0 <= i < t0.len() && t0[i] == c;
                assert(t[i] == c);
            }
        }
        lemma_split_append_plain(s, t0, c);
        assert((s + t).drop_last() =~= s + t0);
        assert((s + t).last() == t.last());
        assert(t.last() != c) by {
            assert(t[t.len() - 1] == t.last());
        }
        let q = split_char(s + t0, c);
        assert(q.last() == p.last() + t0);
        assert((p.last() + t0).push(t.last()) =~= p.last() + t);
        assert(q.update(q.len() - 1, q.last().push(t.last())) =~= p.update(p.len() - 1, p.last() + t));
    }
}

/// Splitting text joined by a separator that none of the pieces holds
/// gives the pieces back.
pub proof fn lemma_split_join(ls: Seq<Seq<char>>, c: char)
    requires
        ls.len() >= 1,
        forall|i: int| 0 <= i < ls.len() ==> !(#[trigger] ls[i]).contains(c),
    ensures
        split_char(join_with(ls, seq![c]), c) == ls,
    decreases ls.len(),
{
    if ls.len() == 1 {
        lemma_split_append_plain(Seq::<char>::empty(), ls[0], c);
        assert(Seq::<char>::empty() + ls[0] =~= ls[0]);
        assert(split_char(Seq::<char>::empty(), c) =~= seq![Seq::<char>::empty()]);
        assert(Seq::<char>::empty() + ls[0] =~= ls[0]);
        assert(seq![Seq::<char>::empty()].update(0, Seq::<char>::empty() + ls[0]) =~= ls);
    } else {
        let init = ls.drop_last();
        lemma_split_join(init, c);
        let j = join_with(init, seq![c]);
        assert(j + seq![c] =~= j.push(c));
        lemma_split_push_sep(j, c);
        assert(ls[ls.len() - 1] == ls.last());
        lemma_split_append_plain(j.push(c), ls.last(), c);
        let p = init.push(Seq::<char>::empty());
        assert(Seq::<char>::empty() + ls.last() =~= ls.last());
        assert(p.update(p.len() - 1, p.last() + ls.last()) =~= ls);
    }
}

/// The joined text is empty only for a single empty piece.
pub proof fn lemma_join_empty(ls: Seq<Seq<char>>, sep: Seq<char>)
    requires
        ls.len() >= 1,
        sep.len() > 0,
        join_with(ls, sep).len() == 0,
    ensures
        ls =~= seq![Seq::<char>::empty()],
{
    if ls.len() > 1 {
        assert((join_with(ls.drop_last(), sep) + sep + ls.last()).len() >= sep.len());
    } else {
        assert(ls[0].len() == 0);
        assert(ls[0] =~= Seq::<char>::empty());
    }
}

/// The lines of `s` as std's `str::lines` yields them: the text is cut at
/// each `'\n'`, a `'\r'` right before a cut `'\n'` is dropped, and a final
/// `'\n'` starts no further line.
pub open spec fn lines_of(s: Seq<char>) -> Seq<Seq<char>> {
    if s.len() == 0 {
        Seq::empty()
    } else {
        let p = split_char(s, '\n');
        let ends_nl = s.last() == '\n';
        let q = if ends_nl { p.drop_last() } else { p };
        q.map(|i: int, l: Seq<char>|
            if (i < q.len() - 1 || ends_nl) && l.len() > 0 && l.last() == '\r' {
                l.drop_last()
            } else {
                l
            })
    }
}

/// `needle` occurs in `hay` as a contiguous run of characters.
pub open spec fn has_substring(hay: Seq<char>, needle: Seq<char>) -> bool {
    exists|i: int| 0 <= i <= hay.len() - needle.len() && #[trigger] hay.subrange(i, i + needle.len()) == needle
}

/// The lowercase form of `s` as std's `str::to_lowercase` computes it
/// (Unicode case mapping).
pub uninterp spec fn lowercase(s: Seq<char>) -> Seq<char>;

/// Whether `c` is alphabetic or numeric in Unicode's sense, as std's
/// `char::is_alphanumeric` decides.
pub uninterp spec fn alphanumeric(c: char) -> bool;

/// Whether `c` is whitespace: it has Unicode's White_Space property, as
/// std's `char::is_whitespace` decides.
pub open spec fn is_white(c: char) -> bool {
    let v = c as u32;
    ||| 0x09 <= v <= 0x0D
    ||| v == 0x20
    ||| v == 0x85
    ||| v == 0xA0
    ||| v == 0x1680
    ||| 0x2000 <= v <= 0x200A
    ||| v == 0x2028
    ||| v == 0x2029
    ||| v == 0x202F
    ||| v == 0x205F
    ||| v == 0x3000
}

/// `s` without its leading whitespace.
pub open spec fn trim_start_of(s: Seq<char>) -> Seq<char>
    decreases s.len(),
{
    if s.len() > 0 && is_white(s[0]) {
        trim_start_of(s.drop_first())
    } else {
        s
    }
}

/// `s` without its trailing whitespace.
pub open spec fn trim_end_of(s: Seq<char>) -> Seq<char>
    decreases s.len(),
{
    if s.len() > 0 && is_white(s.last()) {
        trim_end_of(s.drop_last())
    } else {
        s
    }
}

/// `s` without its leading and trailing whitespace.
pub open spec fn trimmed(s: Seq<char>) -> Seq<char> {
    trim_end_of(trim_start_of(s))
}

/// std's `str::contains` with a string pattern.
#[verifier::external_body]
pub(crate) fn str_contains(hay: &str, needle: &str) -> (r: bool)
    ensures
        r == has_substring(hay@, needle@),
{
    hay.contains(needle)
}

/// std's `str::to_lowercase`; the result is named by `lowercase`.
#[verifier::external_body]
pub(crate) fn str_to_lowercase(s: &str) -> (r: String)
    ensures
        r@ == lowercase(s@),
{
    s.to_lowercase()
}

/// std's `char::is_alphanumeric`; the result is named by `alphanumeric`.
#[verifier::external_body]
pub(crate) fn char_is_alphanumeric(c: char) -> (r: bool)
    ensures
        r == alphanumeric(c),
{
    c.is_alphanumeric()
}

/// std's `str::trim`: the text without its leading and trailing
/// whitespace (`char::is_whitespace`).
#[verifier::external_body]
pub(crate) fn str_trim(s: &str) -> (r: &str)
    ensures
        r@ == trimmed(s@),
{
    s.trim()
}

/// std's `str::lines`, each line copied into a `String`.
#[verifier::external_body]
pub(crate) fn str_lines(s: &str) -> (r: Vec<String>)
    ensures
        r@.map_values(|l: String| l@) == lines_of(s@),
{
    s.lines().map(String::from).collect()
}

/// std's `str::split` with a `char` pattern, each piece copied into a `String`.
#[verifier::external_body]
pub(crate) fn str_split_char(s: &str, c: char) -> (r: Vec<String>)
    ensures
        r@.map_values(|l: String| l@) == split_char(s@, c),
{
    s.split(c).map(String::from).collect()
}

/// The characters of `s`, in order.
#[verifier::external_body]
pub(crate) fn chars_of(s: &str) -> (r: Vec<char>)
    ensures
        r@ == s@,
{
    s.chars().collect()
}

/// std's `String::push`: appends one character.
#[verifier::external_body]
pub(crate) fn string_push(s: &mut String, c: char)
    ensures
        final(s)@ == old(s)@.push(c),
{
    s.push(c)
}

/// std's `String::pop`: takes off the last character, if any.
#[verifier::external_body]
pub(crate) fn string_pop(s: &mut String) -> (r: Option<char>)
    ensures
        old(s)@.len() == 0 ==> r is None && final(s)@ == old(s)@,
        old(s)@.len() > 0 ==> r == Some(old(s)@.last()) && final(s)@ == old(s)@.drop_last(),
{
    s.pop()
}

/// The texts of `ls` with `sep` between neighbours.
pub open spec fn join_with(ls: Seq<Seq<char>>, sep: Seq<char>) -> Seq<char>
    decreases ls.len(),
{
    if ls.len() == 0 {
        Seq::empty()
    } else if ls.len() == 1 {
        ls[0]
    } else {
        join_with(ls.drop_last(), sep) + sep + ls.last()
    }
}

/// The texts of a sequence of strings.
pub open spec fn texts(v: Seq<String>) -> Seq<Seq<char>> {
    v.map_values(|l: String| l@)
}

/// The strings of `v` with `sep` between neighbours (std's `[String]::join`).
pub fn join_strings(v: &Vec<String>, sep: &str) -> (r: String)
    ensures
        r@ == join_with(texts(v@), sep@),
{
    let mut r = String::new();
    let mut i: usize = 0;
    while i < v.len()
        invariant
            i <= v.len(),
            r@ == join_with(texts(v@).take(i as int), sep@),
        decreases v.len() - i,
    {
        let ghost before = texts(v@).take(i as int);
        if i > 0 {
            r.append(sep);
        }
        r.append(v[i].as_str());
        proof {
            let after = texts(v@).take(i + 1);
            assert(after.drop_last() =~= before);
            assert(after.last() == v@[i as int]@);
            if i == 0 {
                assert(r@ =~= after[0]);
            }
        }
        i = i + 1;
    }
    assert(texts(v@).take(v.len() as int) =~= texts(v@));
    r
}

/// Index of the first `c` in `s`, if any.
pub open spec fn first_index(s: Seq<char>, c: char) -> Option<int> {
    if exists|i: int| 0 <= i < s.len() && s[i] == c {
        Some(choose|i: int| 0 <= i < s.len() && s[i] == c && forall|j: int| 0 <= j < i ==> s[j] != c)
    } else {
        None
    }
}

/// std's `str::split_once` with a `char` pattern: the text before and after
/// the first `c`.
#[verifier::external_body]
pub(crate) fn str_split_once(s: &str, c: char) -> (r: Option<(&str, &str)>)
    ensures
        match first_index(s@, c) {
            None => r.is_none(),
            Some(i) => r matches Some((a, b)) && a@ == s@.take(i) && b@ == s@.skip(i + 1),
        },
{
    s.split_once(c)
}

} // verus!
