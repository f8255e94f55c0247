use vstd::prelude::*;
use crate::records::RecordsData;

verus! {

/// Whether `s` is among the strings of `v`.
pub fn contains_string(v: &Vec<String>, s: &String) -> (r: bool)
    ensures
        r == v@.map_values(|x: String| x@).contains(s@),
{
    let ghost views = v@.map_values(|x: String| x@);
    let mut i: usize = 0;
    while i < v.len()
        invariant
            views == v@.map_values(|x: String| x@),
            forall|j: int| 0 <= j < i ==> views[j] != s@,
        decreases v.len() - i,
    {
        if v[i] == *s {
            assert(views[i as int] == s@);
            return true;
        }
        i = i + 1;
    }
    false
}

/// Whether a candidate record duplicates a known one, by a non-empty website
/// or a non-empty phone.
pub open spec fn is_duplicate(c: RecordsData, sites: Seq<Seq<char>>, phones: Seq<Seq<char>>) -> bool {
    (c.website@.len() > 0 && sites.contains(c.website@)) || (c.phone@.len() > 0 && phones.contains(
        c.phone@,
    ))
}

/// The candidates that are inserted, in order: each one that duplicates
/// neither a known record nor a candidate inserted before it.
pub open spec fn records_to_insert(
    sites: Seq<Seq<char>>,
    phones: Seq<Seq<char>>,
    cands: Seq<RecordsData>,
) -> Seq<RecordsData>
    decreases cands.len(),
{
    if cands.len() == 0 {
        Seq::empty()
    } else {
        let c = cands[0];
        if is_duplicate(c, sites, phones) {
            records_to_insert(sites, phones, cands.drop_first())
        } else {
            seq![c] + records_to_insert(sites.push(c.website@), phones.push(c.phone@), cands.drop_first())
        }
    }
}

pub open spec fn websites_of(rs: Seq<RecordsData>) -> Seq<Seq<char>> {
    rs.map_values(|r: RecordsData| r.website@)
}

pub open spec fn phones_of(rs: Seq<RecordsData>) -> Seq<Seq<char>> {
    rs.map_values(|r: RecordsData| r.phone@)
}

/// The enrichment stage's deduplication: of the `candidates` extracted from
/// detail pages, those to insert beside the `existing` enriched records.
pub fn select_new_records(existing: &Vec<RecordsData>, candidates: Vec<RecordsData>) -> (r: Vec<
    RecordsData,
>)
    ensures
        r@ == records_to_insert(websites_of(existing@), phones_of(existing@), candidates@),
{
    let mut sites: Vec<String> = Vec::new();
    let mut phones: Vec<String> = Vec::new();
    let mut k: usize = 0;
    while k < existing.len()
        invariant
            k <= existing.len(),
            sites@.len() == k,
            phones@.len() == k,
            sites@.map_values(|x: String| x@) == websites_of(existing@.subrange(0, k as int)),
            phones@.map_values(|x: String| x@) == phones_of(existing@.subrange(0, k as int)),
        decreases existing.len() - k,
    {
        let ghost old_sites = sites@;
        let ghost old_phones = phones@;
        sites.push(existing[k].website.clone());
        phones.push(existing[k].phone.clone());
        assert(existing@.subrange(0, k + 1) =~= existing@.subrange(0, k as int).push(existing@[k as int]));
        assert(sites@.map_values(|x: String| x@) =~= old_sites.map_values(|x: String| x@).push(existing@[k as int].website@));
        assert(phones@.map_values(|x: String| x@) =~= old_phones.map_values(|x: String| x@).push(existing@[k as int].phone@));
        k = k + 1;
        assert(sites@.map_values(|x: String| x@) =~= websites_of(existing@.subrange(0, k as int)));
        assert(phones@.map_values(|x: String| x@) =~= phones_of(existing@.subrange(0, k as int)));
    }
    assert(existing@.subrange(0, k as int) =~= existing@);
    let ghost total = records_to_insert(websites_of(existing@), phones_of(existing@), candidates@);
    let mut rest = candidates;
    let mut out: Vec<RecordsData> = Vec::new();
    while rest.len() > 0
        invariant
            out@ + records_to_insert(
                sites@.map_values(|x: String| x@),
                phones@.map_values(|x: String| x@),
                rest@,
            ) == total,
        decreases rest.len(),
    {
        let ghost before = rest@;
        let c = rest.remove(0);
        assert(rest@ =~= before.drop_first());
        let dup = (!c.website.as_str().is_empty() && contains_string(&sites, &c.website)) || (
        !c.phone.as_str().is_empty() && contains_string(&phones, &c.phone));
        if dup {
        } else {
            let ghost old_sites = sites@.map_values(|x: String| x@);
            let ghost old_phones = phones@.map_values(|x: String| x@);
            sites.push(c.website.clone());
            phones.push(c.phone.clone());
            assert(sites@.map_values(|x: String| x@) =~= old_sites.push(c.website@));
            assert(phones@.map_values(|x: String| x@) =~= old_phones.push(c.phone@));
            let ghost old_out = out@;
            out.push(c);
            assert(out@ =~= old_out + seq![c]);
            assert(old_out + seq![c] + records_to_insert(
                old_sites.push(c.website@),
                old_phones.push(c.phone@),
                rest@,
            ) =~= old_out + (seq![c] + records_to_insert(
                old_sites.push(c.website@),
                old_phones.push(c.phone@),
                rest@,
            )));
        }
    }
    assert(out@ + Seq::<RecordsData>::empty() =~= out@);
    out
}


proof fn lemma_inserted_not_known(sites: Seq<Seq<char>>, phones: Seq<Seq<char>>, cands: Seq<RecordsData>)
    ensures
        forall|k: int|
            0 <= k < records_to_insert(sites, phones, cands).len() ==> {
                let w = (#[trigger] records_to_insert(sites, phones, cands)[k]).website@;
                w.len() > 0 ==> !sites.contains(w)
            },
    decreases cands.len(),
{
    if cands.len() > 0 {
        let c = cands[0];
        if is_duplicate(c, sites, phones) {
            lemma_inserted_not_known(sites, phones, cands.drop_first());
        } else {
            let s2 = sites.push(c.website@);
            let p2 = phones.push(c.phone@);
            lemma_inserted_not_known(s2, p2, cands.drop_first());
            let tail = records_to_insert(s2, p2, cands.drop_first());
            let full = records_to_insert(sites, phones, cands);
            assert(full == seq![c] + tail);
            assert forall|k: int| 0 <= k < full.len() implies {
                let w = (#[trigger] full[k]).website@;
                w.len() > 0 ==> !sites.contains(w)
            } by {
                if k > 0 {
                    assert(full[k] == tail[k - 1]);
                    let w = tail[k - 1].website@;
                    if w.len() > 0 && sites.contains(w) {
                        let j = choose|j: int| 0 <= j < sites.len() && sites[j] == w;
                        assert(s2[j] == w);
                    }
                }
            }
        }
    }
}

/// Re-running enrichment inserts no record whose non-empty website some
/// existing enriched record already has: an item whose website is known
/// leads to no insert.
pub proof fn lemma_enrichment_idempotent(existing: Seq<RecordsData>, candidates: Seq<RecordsData>)
    ensures
        forall|k: int|
            0 <= k < records_to_insert(websites_of(existing), phones_of(existing), candidates).len()
                ==> {
                let w = (#[trigger] records_to_insert(
                    websites_of(existing),
                    phones_of(existing),
                    candidates,
                )[k]).website@;
                w.len() > 0 ==> !websites_of(existing).contains(w)
            },
{
    lemma_inserted_not_known(websites_of(existing), phones_of(existing), candidates);
}

} // verus!
