//! Text primitives shared by the query layer: searching, comparing and
//! joining character sequences, with their mathematical meaning.
use vstd::prelude::*;

verus! {

/// The first position of `s` whose element satisfies `p`.
pub open spec fn first_index<A>(s: Seq<A>, p: spec_fn(A) -> bool) -> Option<int>
    decreases s.len(),
{
    if s.len() == 0 {
        None
    } else if p(s[0]) {
        Some(0)
    } else {
        match first_index(s.drop_first(), p) {
            Some(i) => Some(i + 1),
            None => None,
        }
    }
}

/// `first_index` is the least satisfying position, or `None` when no
/// position satisfies the predicate.
pub proof fn lemma_first_index<A>(s: Seq<A>, p: spec_fn(A) -> bool)
    ensures
        match first_index(s, p) {
            Some(i) => 0 <= i < s.len() && p(s[i]) && forall|j: int| 0 <= j < i ==> !p(#[trigger] s[j]),
            None => forall|j: int| 0 <= j < s.len() ==> !p(#[trigger] s[j]),
        },
    decreases s.len(),
{
    if s.len() > 0 && !p(s[0]) {
        lemma_first_index(s.drop_first(), p);
        match first_index(s.drop_first(), p) {
            Some(i) => {
                assert forall|j: int| 0 <= j < i + 1 implies !p(#[trigger] s[j]) by {
                    if j > 0 {
                        assert(s[j] == s.drop_first()[j - 1]);
                    }
                }
            },
            None => {
                assert forall|j: int| 0 <= j < s.len() implies !p(#[trigger] s[j]) by {
                    if j > 0 {
                        assert(s[j] == s.drop_first()[j - 1]);
                    }
                }
            },
        }
    }
}

/// A position that satisfies `p`, with none before it, is the first one.
pub proof fn lemma_first_index_at<A>(s: Seq<A>, p: spec_fn(A) -> bool, i: int)
    requires
        0 <= i < s.len(),
        p(s[i]),
        forall|j: int| 0 <= j < i ==> !p(#[trigger] s[j]),
    ensures
        first_index(s, p) == Some(i),
{
    lemma_first_index(s, p);
    match first_index(s, p) {
        Some(k) => {
            if k < i {
                assert(!p(s[k]));
            } else if k > i {
                assert(!p(s[i]));
            }
        },
        None => {
            assert(!p(s[i]));
        },
    }
}

/// With no satisfying position there is no first one.
pub proof fn lemma_first_index_none<A>(s: Seq<A>, p: spec_fn(A) -> bool)
    requires
        forall|j: int| 0 <= j < s.len() ==> !p(#[trigger] s[j]),
    ensures
        first_index(s, p) == None::<int>,
{
    lemma_first_index(s, p);
    match first_index(s, p) {
        Some(k) => {
            assert(!p(s[k]));
        },
        None => {},
    }
}

/// The pair whose key is `k`.
pub open spec fn key_is<V>(k: Seq<char>) -> spec_fn((String, V)) -> bool {
    |e: (String, V)| e.0@ == k
}

/// The keys of a list of pairs.
pub open spec fn keys_of<V>(entries: Seq<(String, V)>) -> Seq<Seq<char>> {
    entries.map_values(|e: (String, V)| e.0@)
}

/// The position of the first pair whose key is `key`.
pub fn find_key<V>(entries: &Vec<(String, V)>, key: &str) -> (r: Option<usize>)
    ensures
        match r {
            Some(i) => first_index(entries@, key_is::<V>(key@)) == Some(i as int),
            None => first_index(entries@, key_is::<V>(key@)) == None::<int>,
        },
{
    let mut i: usize = 0;
    while i < entries.len()
        invariant
            i <= entries@.len(),
            forall|j: int| 0 <= j < i ==> !key_is::<V>(key@)(#[trigger] entries@[j]),
        decreases entries@.len() - i,
    {
        if str_eq(entries[i].0.as_str(), key) {
            proof {
                lemma_first_index_at(entries@, key_is::<V>(key@), i as int);
            }
            return Some(i);
        }
        i = i + 1;
    }
    proof {
        lemma_first_index_none(entries@, key_is::<V>(key@));
    }
    None
}

/// The keys of a list of pairs, joined with `sep`.
pub fn join_keys<V>(entries: &Vec<(String, V)>, sep: &str) -> (r: String)
    ensures
        r@ == joined(keys_of(entries@), sep@),
{
    let mut keys: Vec<String> = Vec::new();
    let mut i: usize = 0;
    while i < entries.len()
        invariant
            i <= entries@.len(),
            views(keys@) == keys_of(entries@.take(i as int)),
        decreases entries@.len() - i,
    {
        let ghost prev = keys@;
        keys.push(entries[i].0.clone());
        assert(views(keys@) =~= views(prev).push(entries@[i as int].0@));
        assert(keys_of(entries@.take(i + 1)) =~= keys_of(entries@.take(i as int)).push(
            entries@[i as int].0@,
        ));
        i = i + 1;
    }
    assert(entries@.take(i as int) =~= entries@);
    join_strings(&keys, sep)
}

/// The concatenation of `f` applied to each element of `s`, in order.
pub open spec fn concat_map<A>(s: Seq<A>, f: spec_fn(A) -> Seq<char>) -> Seq<char>
    decreases s.len(),
{
    if s.len() == 0 {
        Seq::empty()
    } else {
        concat_map(s.drop_last(), f) + f(s.last())
    }
}

pub proof fn lemma_concat_map_step<A>(s: Seq<A>, f: spec_fn(A) -> Seq<char>, i: int)
    requires
        0 <= i < s.len(),
    ensures
        concat_map(s.take(i + 1), f) == concat_map(s.take(i), f) + f(s[i]),
{
    assert(s.take(i + 1).drop_last() =~= s.take(i));
}

pub proof fn lemma_concat_map_push<A>(s: Seq<A>, f: spec_fn(A) -> Seq<char>, a: A)
    ensures
        concat_map(s.push(a), f) == concat_map(s, f) + f(a),
{
    assert(s.push(a).drop_last() =~= s);
}

pub proof fn lemma_filter_step<A>(s: Seq<A>, p: spec_fn(A) -> bool, i: int)
    requires
        0 <= i < s.len(),
    ensures
        s.take(i + 1).filter(p) == if p(s[i]) {
            s.take(i).filter(p).push(s[i])
        } else {
            s.take(i).filter(p)
        },
{
    reveal(Seq::filter);
    assert(s.take(i + 1).drop_last() =~= s.take(i));
}

/// `needle` occurs in `hay` as a contiguous run.
pub open spec fn seq_contains(hay: Seq<char>, needle: Seq<char>) -> bool {
    exists|i: int|
        0 <= i && i + needle.len() <= hay.len() && #[trigger] hay.subrange(i, i + needle.len())
            == needle
}

/// `hay` begins with `prefix`.
pub open spec fn seq_starts_with(hay: Seq<char>, prefix: Seq<char>) -> bool {
    prefix.len() <= hay.len() && hay.subrange(0, prefix.len() as int) == prefix
}

/// `hay` ends with `suffix`.
pub open spec fn seq_ends_with(hay: Seq<char>, suffix: Seq<char>) -> bool {
    suffix.len() <= hay.len() && hay.subrange(hay.len() - suffix.len(), hay.len() as int) == suffix
}

/// The items joined with `sep` between consecutive items.
pub open spec fn joined(items: Seq<Seq<char>>, sep: Seq<char>) -> Seq<char>
    decreases items.len(),
{
    if items.len() == 0 {
        Seq::empty()
    } else if items.len() == 1 {
        items[0]
    } else {
        joined(items.drop_last(), sep) + sep + items.last()
    }
}

pub open spec fn views(items: Seq<String>) -> Seq<Seq<char>> {
    items.map_values(|x: String| x@)
}

/// Path concatenation as done on Unix: an absolute `rel` replaces `base`,
/// otherwise a separator is put between them unless `base` is empty or
/// already ends with one.
pub open spec fn path_join(base: Seq<char>, rel: Seq<char>) -> Seq<char> {
    if rel.len() > 0 && rel[0] == '/' {
        rel
    } else if base.len() == 0 || base.last() == '/' {
        base + rel
    } else {
        base + seq!['/'] + rel
    }
}

/// The lower-case form that `str::to_lowercase` gives of a text.
pub uninterp spec fn lower_of(s: Seq<char>) -> Seq<char>;

/// Relies on `str::to_lowercase`, whose result depends on the characters
/// alone, and which maps the empty text to the empty text.
#[verifier::external_body]
pub fn lowercase(s: &str) -> (r: String)
    ensures
        r@ == lower_of(s@),
        s@.len() == 0 ==> r@.len() == 0,
{
    s.to_lowercase()
}

/// The characters of `s`, one per element.
pub fn chars_of(s: &str) -> (r: Vec<char>)
    ensures
        r@ == s@,
{
    let n = s.unicode_len();
    let mut out: Vec<char> = Vec::new();
    let mut i: usize = 0;
    while i < n
        invariant
            n == s@.len(),
            i <= n,
            out@ == s@.take(i as int),
        decreases n - i,
    {
        out.push(s.get_char(i));
        i = i + 1;
        assert(out@ =~= s@.take(i as int));
    }
    assert(out@ =~= s@);
    out
}

/// Equality of two texts.
pub fn str_eq(a: &str, b: &str) -> (r: bool)
    ensures
        r == (a@ == b@),
{
    let x = chars_of(a);
    let y = chars_of(b);
    if x.len() != y.len() {
        return false;
    }
    let mut i: usize = 0;
    while i < x.len()
        invariant
            x@ == a@,
            y@ == b@,
            x@.len() == y@.len(),
            i <= x@.len(),
            forall|j: int| 0 <= j < i ==> x@[j] == y@[j],
        decreases x@.len() - i,
    {
        if x[i] != y[i] {
            return false;
        }
        i = i + 1;
    }
    assert(x@ =~= y@);
    true
}

fn matches_at(hay: &Vec<char>, needle: &Vec<char>, start: usize) -> (r: bool)
    requires
        start + needle@.len() <= hay@.len(),
    ensures
        r == (hay@.subrange(start as int, start + needle@.len()) == needle@),
{
    let hl = hay.len();
    let mut j: usize = 0;
    while j < needle.len()
        invariant
            hl == hay@.len(),
            start + needle@.len() <= hay@.len(),
            j <= needle@.len(),
            forall|k: int| 0 <= k < j ==> hay@[start + k] == needle@[k],
        decreases needle@.len() - j,
    {
        assert(start + j < hay@.len());
        if hay[start + j] != needle[j] {
            assert(hay@.subrange(start as int, start + needle@.len())[j as int] != needle@[j as int]);
            return false;
        }
        j = j + 1;
    }
    assert(hay@.subrange(start as int, start + needle@.len()) =~= needle@);
    true
}

/// Whether `needle` occurs in `hay`.
pub fn contains_str(hay: &str, needle: &str) -> (r: bool)
    ensures
        r == seq_contains(hay@, needle@),
{
    let h = chars_of(hay);
    let n = chars_of(needle);
    if n.len() > h.len() {
        return false;
    }
    let last = h.len() - n.len();
    let mut i: usize = 0;
    while i < last
        invariant
            h@ == hay@,
            n@ == needle@,
            last + n@.len() == h@.len(),
            i <= last,
            forall|k: int|
                0 <= k < i ==> #[trigger] h@.subrange(k, k + n@.len()) != n@,
        decreases last - i,
    {
        if matches_at(&h, &n, i) {
            return true;
        }
        i = i + 1;
    }
    matches_at(&h, &n, last)
}

/// Whether `hay` begins with `prefix`.
pub fn starts_with_str(hay: &str, prefix: &str) -> (r: bool)
    ensures
        r == seq_starts_with(hay@, prefix@),
{
    let h = chars_of(hay);
    let p = chars_of(prefix);
    if p.len() > h.len() {
        return false;
    }
    matches_at(&h, &p, 0)
}

/// Whether `hay` ends with `suffix`.
pub fn ends_with_str(hay: &str, suffix: &str) -> (r: bool)
    ensures
        r == seq_ends_with(hay@, suffix@),
{
    let h = chars_of(hay);
    let p = chars_of(suffix);
    if p.len() > h.len() {
        return false;
    }
    matches_at(&h, &p, h.len() - p.len())
}

/// The items joined with `sep` between consecutive items.
pub fn join_strings(items: &Vec<String>, sep: &str) -> (r: String)
    ensures
        r@ == joined(views(items@), sep@),
{
    let mut out = String::new();
    let mut i: usize = 0;
    while i < items.len()
        invariant
            i <= items@.len(),
            out@ == joined(views(items@.take(i as int)), sep@),
        decreases items@.len() - i,
    {
        assert(views(items@.take(i + 1)).drop_last() =~= views(items@.take(i as int)));
        if i > 0 {
            out.append(sep);
        }
        out.append(items[i].as_str());
        i = i + 1;
    }
    assert(items@.take(i as int) =~= items@);
    out
}

/// Unix path concatenation, as `Path::join` followed by `display`.
pub fn join_path(base: &str, rel: &str) -> (r: String)
    ensures
        r@ == path_join(base@, rel@),
{
    let rn = rel.unicode_len();
    let bn = base.unicode_len();
    if rn > 0 && rel.get_char(0) == '/' {
        return rel.to_owned();
    }
    let mut out = base.to_owned();
    if bn > 0 && base.get_char(bn - 1) != '/' {
        out.append("/");
        proof {
            reveal_strlit("/");
        }
        assert(out@ == base@ + seq!['/']);
    }
    out.append(rel);
    out
}

} // verus!
