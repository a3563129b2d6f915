use vstd::prelude::*;
use vstd::string::StringExecFns;
use crate::text::name_after_at;
use crate::text::stream_name_of;

verus! {

/// How a bounded backward read over the remote log ended.
pub enum ReadEnd {
    /// The read ran out of records: the normal end.
    Done,
    /// The source does not exist: benign end of data, never surfaced.
    NotFound,
    /// Any other transport failure, with its message.
    Failed(String),
}

/// The pair of summary lists shown in the Main stage.
pub struct Catalog {
    /// Recently created streams, most recent first.
    pub last_created: Vec<String>,
    /// Recently changed streams, most recent first, deduplicated.
    pub recently_changed: Vec<String>,
}

/// No element occurs twice.
pub open spec fn no_dup<A>(s: Seq<A>) -> bool {
    forall|i: int, j: int| 0 <= i < j < s.len() ==> s[i] != s[j]
}

/// Keep-first deduplication: each element at its first occurrence, in order.
pub open spec fn dedup_first<A>(s: Seq<A>) -> Seq<A>
    decreases s.len(),
{
    if s.len() == 0 {
        Seq::empty()
    } else {
        let d = dedup_first(s.drop_last());
        if d.contains(s.last()) {
            d
        } else {
            d.push(s.last())
        }
    }
}

/// Keep-first deduplication leaves no duplicate behind.
pub proof fn lemma_dedup_first_no_dup<A>(s: Seq<A>)
    ensures
        no_dup(dedup_first(s)),
    decreases s.len(),
{
    if s.len() > 0 {
        let d = dedup_first(s.drop_last());
        lemma_dedup_first_no_dup(s.drop_last());
        if !d.contains(s.last()) {
            assert forall|i: int, j: int|
                0 <= i < j < d.push(s.last()).len() implies d.push(s.last())[i] != d.push(
                s.last(),
            )[j] by {
                if j == d.len() {
                    assert(d[i] == d.push(s.last())[i]);
                }
            }
        }
    }
}

/// Keep-first deduplication keeps exactly the elements of its input.
pub proof fn lemma_dedup_first_contains<A>(s: Seq<A>, x: A)
    ensures
        dedup_first(s).contains(x) <==> s.contains(x),
    decreases s.len(),
{
    if s.len() > 0 {
        let t = s.drop_last();
        let d = dedup_first(t);
        lemma_dedup_first_contains(t, x);
        assert(s.contains(x) <==> (t.contains(x) || s.last() == x)) by {
            if s.contains(x) {
                let k = choose|k: int| 0 <= k < s.len() && s[k] == x;
                if k < s.len() - 1 {
                    assert(t[k] == x);
                }
            }
            if t.contains(x) {
                let k = choose|k: int| 0 <= k < t.len() && t[k] == x;
                assert(s[k] == x);
            }
            if s.last() == x {
                assert(s[s.len() - 1] == x);
            }
        }
        if d.contains(s.last()) {
            if s.last() == x {
                assert(d.contains(x));
            }
        } else {
            let p = d.push(s.last());
            assert(p.contains(x) <==> (d.contains(x) || s.last() == x)) by {
                if d.contains(x) {
                    let k = choose|k: int| 0 <= k < d.len() && d[k] == x;
                    assert(p[k] == x);
                }
                if s.last() == x {
                    assert(p[d.len() as int] == x);
                }
                if p.contains(x) {
                    let k = choose|k: int| 0 <= k < p.len() && p[k] == x;
                    if k < d.len() {
                        assert(d[k] == x);
                    }
                }
            }
        }
    }
}

/// Whether `v` holds a string whose characters equal `x`'s.
pub fn contains_string(v: &Vec<String>, x: &String) -> (b: bool)
    ensures
        b == v.deep_view().contains(x@),
{
    let mut i: usize = 0;
    while i < v.len()
        invariant
            i <= v@.len(),
            forall|j: int| 0 <= j < i ==> v.deep_view()[j] != x@,
        decreases v@.len() - i,
    {
        if v[i] == *x {
            assert(v.deep_view()[i as int] == x@);
            return true;
        }
        assert(v.deep_view()[i as int] == v@[i as int]@);
        i = i + 1;
    }
    assert(!v.deep_view().contains(x@));
    false
}

/// Maps each creation-projection payload to the stream name it carries,
/// keeping the read order (most recent first).
pub fn last_created_from(payloads: &Vec<String>) -> (r: Vec<String>)
    ensures
        r@.len() == payloads@.len(),
        forall|i: int| 0 <= i < r@.len() ==> r@[i]@ == name_after_at(payloads@[i]@),
{
    let mut r: Vec<String> = Vec::new();
    let mut i: usize = 0;
    while i < payloads.len()
        invariant
            i <= payloads@.len(),
            r@.len() == i,
            forall|j: int| 0 <= j < i ==> r@[j]@ == name_after_at(payloads@[j]@),
        decreases payloads@.len() - i,
    {
        let name = stream_name_of(payloads[i].as_str());
        r.push(name);
        i = i + 1;
    }
    r
}

/// Deduplicates stream identifiers, keeping the first (most recent)
/// occurrence of each and the read order of the rest.
pub fn dedup_keep_first(ids: &Vec<String>) -> (r: Vec<String>)
    ensures
        r.deep_view() == dedup_first(ids.deep_view()),
        no_dup(r.deep_view()),
        forall|x: Seq<char>| r.deep_view().contains(x) <==> ids.deep_view().contains(x),
{
    let mut r: Vec<String> = Vec::new();
    let mut i: usize = 0;
    proof {
        assert(r.deep_view() =~= dedup_first(ids.deep_view().take(0)));
    }
    while i < ids.len()
        invariant
            i <= ids@.len(),
            r.deep_view() == dedup_first(ids.deep_view().take(i as int)),
        decreases ids@.len() - i,
    {
        let ghost pre = ids.deep_view().take(i as int);
        let ghost cur = ids.deep_view().take(i + 1);
        proof {
            assert(cur.drop_last() =~= pre);
            assert(cur.last() == ids.deep_view()[i as int]);
            assert(ids.deep_view()[i as int] == ids@[i as int]@);
        }
        if !contains_string(&r, &ids[i]) {
            let id = ids[i].clone();
            r.push(id);
            proof {
                assert(r.deep_view() =~= dedup_first(pre).push(ids.deep_view()[i as int]));
            }
        }
        i = i + 1;
    }
    proof {
        assert(ids.deep_view().take(ids@.len() as int) =~= ids.deep_view());
        lemma_dedup_first_no_dup(ids.deep_view());
        assert forall|x: Seq<char>| r.deep_view().contains(x) <==> ids.deep_view().contains(
            x,
        ) by {
            lemma_dedup_first_contains(ids.deep_view(), x);
        }
    }
    r
}

/// Builds the catalog from the outcomes of its two backward reads: the
/// creation projection's payloads and the global log's owning stream
/// identifiers, each with the way its read ended.
///
/// A missing source is a benign end of data and leaves what was read;
/// any other failure aborts the whole load, the creation read first.
pub fn build_catalog(
    created_payloads: Vec<String>,
    created_end: ReadEnd,
    changed_ids: Vec<String>,
    changed_end: ReadEnd,
) -> (r: Result<Catalog, String>)
    ensures
        created_end is Failed ==> r == Err::<Catalog, String>(created_end->Failed_0),
        !(created_end is Failed) && changed_end is Failed ==> r == Err::<Catalog, String>(
            changed_end->Failed_0,
        ),
        !(created_end is Failed) && !(changed_end is Failed) ==> {
            &&& r is Ok
            &&& r->Ok_0.last_created@.len() == created_payloads@.len()
            &&& forall|i: int| 0 <= i < created_payloads@.len() ==> r->Ok_0.last_created@[i]@
                == name_after_at(created_payloads@[i]@)
            &&& r->Ok_0.recently_changed.deep_view() == dedup_first(changed_ids.deep_view())
            &&& no_dup(r->Ok_0.recently_changed.deep_view())
        },
{
    if let ReadEnd::Failed(m) = created_end {
        return Err(m);
    }
    if let ReadEnd::Failed(m) = changed_end {
        return Err(m);
    }
    let last_created = last_created_from(&created_payloads);
    let recently_changed = dedup_keep_first(&changed_ids);
    Ok(Catalog { last_created, recently_changed })
}

/// Whether a selected stream name is the reserved marker of the global
/// cross-stream log rather than a single stream's name.
pub fn reads_all_log(name: &String) -> (b: bool)
    ensures
        b == (name@ == "$all"@),
{
    *name == String::from_str("$all")
}

} // verus!
