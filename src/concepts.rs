//! Finding concepts by name or keyword. Matching that ignores case works on
//! the lower-case forms of the texts, which the callers compute once and
//! hand over; the functions here are exact in terms of those forms.
use vstd::prelude::*;
use crate::config::Concept;
use crate::format::{file_lines, push_file_lines};
use crate::registry::pair_views;
use crate::text::{
    concat_map, contains_str, find_key, first_index, key_is, lemma_concat_map_push,
    lemma_filter_step, lemma_first_index, lemma_first_index_at, lemma_first_index_none, lower_of,
    lowercase, seq_contains, str_eq,
};

verus! {

/// The lower-case forms of each concept's key and summary.
pub open spec fn lowered(concepts: Seq<(String, Concept)>) -> Seq<(Seq<char>, Seq<char>)> {
    concepts.map_values(|c: (String, Concept)| (lower_of(c.0@), lower_of(c.1.summary@)))
}

/// The lower-case forms of each concept's key and summary.
pub fn lower_concepts(concepts: &Vec<(String, Concept)>) -> (r: Vec<(String, String)>)
    ensures
        r@.len() == concepts@.len(),
        pair_views(r@) == lowered(concepts@),
{
    let mut out: Vec<(String, String)> = Vec::new();
    let mut i: usize = 0;
    while i < concepts.len()
        invariant
            i <= concepts@.len(),
            out@.len() == i,
            pair_views(out@) == lowered(concepts@.take(i as int)),
        decreases concepts@.len() - i,
    {
        let ghost prev = out@;
        let key = lowercase(concepts[i].0.as_str());
        let summary = lowercase(concepts[i].1.summary.as_str());
        out.push((key, summary));
        assert(pair_views(out@) =~= pair_views(prev).push((key@, summary@)));
        assert(lowered(concepts@.take(i + 1)) =~= lowered(concepts@.take(i as int)).push(
            (lower_of(concepts@[i as int].0@), lower_of(concepts@[i as int].1.summary@)),
        ));
        i = i + 1;
    }
    assert(concepts@.take(i as int) =~= concepts@);
    out
}

/// A lowered concept whose key is `q`.
pub open spec fn key_equals(q: Seq<char>) -> spec_fn((Seq<char>, Seq<char>)) -> bool {
    |l: (Seq<char>, Seq<char>)| l.0 == q
}

/// A lowered concept whose key or summary holds `q`.
pub open spec fn holds(q: Seq<char>) -> spec_fn((Seq<char>, Seq<char>)) -> bool {
    |l: (Seq<char>, Seq<char>)| seq_contains(l.0, q) || seq_contains(l.1, q)
}

/// The concept that `name` picks, given the lowered concepts and the lowered
/// name: an exact key, else a key equal to the lowered name, else the first
/// concept whose lowered key or summary holds it.
pub open spec fn pick_spec(
    concepts: Seq<(String, Concept)>,
    name: Seq<char>,
    low: Seq<(Seq<char>, Seq<char>)>,
    lname: Seq<char>,
) -> Option<int> {
    match first_index(concepts, key_is::<Concept>(name)) {
        Some(i) => Some(i),
        None => match first_index(low, key_equals(lname)) {
            Some(i) => Some(i),
            None => first_index(low, holds(lname)),
        },
    }
}

/// The concept that a name resolves to, up to case.
pub open spec fn resolve_concept_spec(concepts: Seq<(String, Concept)>, name: Seq<char>) -> Option<
    int,
> {
    pick_spec(concepts, name, lowered(concepts), lower_of(name))
}

/// The position of the concept that `name` picks, given the lowered forms.
pub fn pick_concept(
    concepts: &Vec<(String, Concept)>,
    name: &str,
    low: &Vec<(String, String)>,
    lname: &str,
) -> (r: Option<usize>)
    requires
        low@.len() == concepts@.len(),
    ensures
        match r {
            Some(i) => pick_spec(concepts@, name@, pair_views(low@), lname@) == Some(i as int),
            None => pick_spec(concepts@, name@, pair_views(low@), lname@) == None::<int>,
        },
{
    let ghost lv = pair_views(low@);
    match find_key(concepts, name) {
        Some(i) => return Some(i),
        None => {},
    }
    let mut i: usize = 0;
    while i < low.len()
        invariant
            lv == pair_views(low@),
            i <= low@.len(),
            first_index(concepts@, key_is::<Concept>(name@)) == None::<int>,
            forall|j: int| 0 <= j < i ==> !key_equals(lname@)(#[trigger] lv[j]),
        decreases low@.len() - i,
    {
        if str_eq(low[i].0.as_str(), lname) {
            proof {
                lemma_first_index_at(lv, key_equals(lname@), i as int);
            }
            return Some(i);
        }
        i = i + 1;
    }
    proof {
        lemma_first_index_none(lv, key_equals(lname@));
    }
    let mut i: usize = 0;
    while i < low.len()
        invariant
            lv == pair_views(low@),
            i <= low@.len(),
            first_index(concepts@, key_is::<Concept>(name@)) == None::<int>,
            first_index(lv, key_equals(lname@)) == None::<int>,
            forall|j: int| 0 <= j < i ==> !holds(lname@)(#[trigger] lv[j]),
        decreases low@.len() - i,
    {
        if contains_str(low[i].0.as_str(), lname) || contains_str(low[i].1.as_str(), lname) {
            proof {
                lemma_first_index_at(lv, holds(lname@), i as int);
            }
            return Some(i);
        }
        i = i + 1;
    }
    proof {
        lemma_first_index_none(lv, holds(lname@));
    }
    None
}

/// The position of the concept that `name` resolves to, up to case.
pub fn resolve_concept(concepts: &Vec<(String, Concept)>, name: &str) -> (r: Option<usize>)
    ensures
        match r {
            Some(i) => resolve_concept_spec(concepts@, name@) == Some(i as int),
            None => resolve_concept_spec(concepts@, name@) == None::<int>,
        },
{
    let low = lower_concepts(concepts);
    let lname = lowercase(name);
    pick_concept(concepts, name, &low, lname.as_str())
}

/// An exact key match is always preferred to a match up to case, and that to
/// a partial match, wherever in the mapping the candidates stand.
pub proof fn law_concept_match_priority(concepts: Seq<(String, Concept)>, name: Seq<char>)
    ensures
        (exists|j: int| 0 <= j < concepts.len() && #[trigger] concepts[j].0@ == name) ==> match resolve_concept_spec(concepts, name) {
            Some(i) => 0 <= i < concepts.len() && concepts[i].0@ == name,
            None => false,
        },
        (forall|j: int| 0 <= j < concepts.len() ==> #[trigger] concepts[j].0@ != name) && (exists|j: int|
            0 <= j < concepts.len() && lower_of(#[trigger] concepts[j].0@) == lower_of(name)) ==> match resolve_concept_spec(concepts, name) {
            Some(i) => 0 <= i < concepts.len() && lower_of(concepts[i].0@) == lower_of(name),
            None => false,
        },
        (forall|j: int| 0 <= j < concepts.len() ==> #[trigger] concepts[j].0@ != name && lower_of(concepts[j].0@) != lower_of(name)) ==> match resolve_concept_spec(concepts, name) {
            Some(i) => 0 <= i < concepts.len() && (seq_contains(lower_of(concepts[i].0@), lower_of(name))
                || seq_contains(lower_of(concepts[i].1.summary@), lower_of(name))),
            None => forall|j: int| 0 <= j < concepts.len() ==> !seq_contains(lower_of(#[trigger] concepts[j].0@), lower_of(name))
                && !seq_contains(lower_of(concepts[j].1.summary@), lower_of(name)),
        },
{
    let low = lowered(concepts);
    let lname = lower_of(name);
    lemma_first_index(concepts, key_is::<Concept>(name));
    lemma_first_index(low, key_equals(lname));
    lemma_first_index(low, holds(lname));
    assert forall|j: int| 0 <= j < concepts.len() implies #[trigger] low[j] == (
        lower_of(concepts[j].0@),
        lower_of(concepts[j].1.summary@),
    ) by {}
    if exists|j: int| 0 <= j < concepts.len() && #[trigger] concepts[j].0@ == name {
        let j = choose|j: int| 0 <= j < concepts.len() && #[trigger] concepts[j].0@ == name;
        assert(key_is::<Concept>(name)(concepts[j]));
    }
    if exists|j: int| 0 <= j < concepts.len() && lower_of(#[trigger] concepts[j].0@) == lower_of(name) {
        let j = choose|j: int| 0 <= j < concepts.len() && lower_of(#[trigger] concepts[j].0@) == lower_of(name);
        assert(key_equals(lname)(low[j]));
    }
    if forall|j: int| 0 <= j < concepts.len() ==> #[trigger] concepts[j].0@ != name && lower_of(concepts[j].0@) != lower_of(name) {
        match first_index(low, holds(lname)) {
            Some(i) => {},
            None => {
                assert forall|j: int| 0 <= j < concepts.len() implies !seq_contains(lower_of(#[trigger] concepts[j].0@), lower_of(name))
                    && !seq_contains(lower_of(concepts[j].1.summary@), lower_of(name)) by {
                    assert(!holds(lname)(low[j]));
                }
            },
        }
    }
}

/// Each concept beside its lowered forms.
pub open spec fn zipped(concepts: Seq<(String, Concept)>, low: Seq<(Seq<char>, Seq<char>)>) -> Seq<
    ((String, Concept), (Seq<char>, Seq<char>)),
> {
    Seq::new(concepts.len(), |j: int| (concepts[j], low[j]))
}

pub open spec fn holds_zipped(q: Seq<char>) -> spec_fn(((String, Concept), (Seq<char>, Seq<char>))) -> bool {
    |z: ((String, Concept), (Seq<char>, Seq<char>))| holds(q)(z.1)
}

pub open spec fn concept_part() -> spec_fn(((String, Concept), (Seq<char>, Seq<char>))) -> (
    String,
    Concept,
) {
    |z: ((String, Concept), (Seq<char>, Seq<char>))| z.0
}

/// The concepts whose lowered key or summary holds `lq`, in mapping order.
pub open spec fn select_related(
    concepts: Seq<(String, Concept)>,
    low: Seq<(Seq<char>, Seq<char>)>,
    lq: Seq<char>,
) -> Seq<(String, Concept)> {
    zipped(concepts, low).filter(holds_zipped(lq)).map_values(concept_part())
}

/// The concepts that a query finds, up to case.
pub open spec fn related_concepts(concepts: Seq<(String, Concept)>, query: Seq<char>) -> Seq<
    (String, Concept),
> {
    select_related(concepts, lowered(concepts), lower_of(query))
}

/// A related-files search returns every matching concept, not only the
/// first, and only matching ones; and it does not depend on the case of the query.
pub proof fn law_related_files_union(
    concepts: Seq<(String, Concept)>,
    query: Seq<char>,
    other: Seq<char>,
)
    ensures
        forall|j: int|
            0 <= j < concepts.len() && (seq_contains(lower_of(#[trigger] concepts[j].0@), lower_of(query))
                || seq_contains(lower_of(concepts[j].1.summary@), lower_of(query)))
                ==> related_concepts(concepts, query).contains(concepts[j]),
        forall|k: int|
            0 <= k < related_concepts(concepts, query).len() ==> {
                let c = #[trigger] related_concepts(concepts, query)[k];
                concepts.contains(c) && (seq_contains(lower_of(c.0@), lower_of(query))
                    || seq_contains(lower_of(c.1.summary@), lower_of(query)))
            },
        lower_of(other) == lower_of(query) ==> related_concepts(concepts, other)
            == related_concepts(concepts, query),
{
    let low = lowered(concepts);
    let z = zipped(concepts, low);
    let p = holds_zipped(lower_of(query));
    let f = concept_part();
    let found = z.filter(p);
    assert(found.map_values(f) == related_concepts(concepts, query));
    assert forall|j: int|
        0 <= j < concepts.len() && (seq_contains(lower_of(#[trigger] concepts[j].0@), lower_of(query))
            || seq_contains(lower_of(concepts[j].1.summary@), lower_of(query))) implies found.map_values(f).contains(concepts[j]) by {
        assert(z[j] == (concepts[j], low[j]));
        assert(p(z[j]));
        z.lemma_filter_contains(p, j);
        let k = choose|k: int| 0 <= k < found.len() && found[k] == z[j];
        assert(found.map_values(f)[k] == concepts[j]);
    }
    assert forall|k: int| 0 <= k < related_concepts(concepts, query).len() implies {
        let c = #[trigger] related_concepts(concepts, query)[k];
        concepts.contains(c) && (seq_contains(lower_of(c.0@), lower_of(query))
            || seq_contains(lower_of(c.1.summary@), lower_of(query)))
    } by {
        z.lemma_filter_pred(p, k);
        z.lemma_filter_contains_rev(p, found[k]);
        let j = choose|j: int| 0 <= j < z.len() && z[j] == found[k];
        assert(concepts[j] == found.map_values(f)[k]);
        assert(p(z[j]));
        assert(low[j] == (lower_of(concepts[j].0@), lower_of(concepts[j].1.summary@)));
    }
}

pub open spec fn related_block(dir: Seq<char>) -> spec_fn((String, Concept)) -> Seq<char> {
    |c: (String, Concept)| "## "@ + c.0@ + "\n"@ + c.1.summary@ + "\n\nFiles:\n"@ + file_lines(
        dir,
        c.1.files@,
    ) + "\n"@
}

/// The file groups of the concepts whose lowered key or summary holds
/// `lquery`, and how many concepts matched.
pub fn render_related(
    dir: &str,
    concepts: &Vec<(String, Concept)>,
    low: &Vec<(String, String)>,
    lquery: &str,
) -> (r: (String, usize))
    requires
        low@.len() == concepts@.len(),
    ensures
        r.0@ == concat_map(select_related(concepts@, pair_views(low@), lquery@), related_block(dir@)),
        r.1 == select_related(concepts@, pair_views(low@), lquery@).len(),
{
    let ghost z = zipped(concepts@, pair_views(low@));
    let ghost pred = holds_zipped(lquery@);
    let ghost f = concept_part();
    let ghost block = related_block(dir@);
    let mut body = String::new();
    let mut count: usize = 0;
    let mut i: usize = 0;
    while i < concepts.len()
        invariant
            low@.len() == concepts@.len(),
            z == zipped(concepts@, pair_views(low@)),
            pred == holds_zipped(lquery@),
            f == concept_part(),
            block == related_block(dir@),
            i <= concepts@.len(),
            count == z.take(i as int).filter(pred).len(),
            body@ == concat_map(z.take(i as int).filter(pred).map_values(f), block),
        decreases concepts@.len() - i,
    {
        proof {
            lemma_filter_step(z, pred, i as int);
            z.take(i as int).filter(pred).lemma_filter_len(pred);
        }
        assert(z[i as int] == (concepts@[i as int], pair_views(low@)[i as int]));
        if contains_str(low[i].0.as_str(), lquery) || contains_str(low[i].1.as_str(), lquery) {
            let c = &concepts[i];
            let ghost before = body@;
            let ghost prev = z.take(i as int).filter(pred);
            body.append("## ");
            body.append(c.0.as_str());
            body.append("\n");
            body.append(c.1.summary.as_str());
            body.append("\n\nFiles:\n");
            push_file_lines(&mut body, dir, &c.1.files);
            body.append("\n");
            assert(prev.push(z[i as int]).map_values(f) =~= prev.map_values(f).push(*c));
            proof {
                lemma_concat_map_push(prev.map_values(f), block, *c);
            }
            assert(body@ =~= before + block(*c));
            count = count + 1;
        }
        i = i + 1;
    }
    assert(z.take(i as int) =~= z);
    (body, count)
}

} // verus!
