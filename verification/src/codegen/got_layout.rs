//! The layout of the custom global offset table used for online change:
//! which index each global name gets.
use vstd::prelude::*;

verus! {

/// The index that a layout gives a name; where the name occurs more than
/// once, the last entry counts (as in a map that each entry is inserted
/// into).
pub open spec fn got_index(entries: Seq<(String, u64)>, name: Seq<char>) -> Option<u64>
    decreases entries.len(),
{
    if entries.len() == 0 {
        None
    } else if entries.last().0@ == name {
        Some(entries.last().1)
    } else {
        got_index(entries.drop_last(), name)
    }
}

/// The names that the previous layout holds, in order, with their indices
/// there.
pub open spec fn kept_entries(previous: Seq<(String, u64)>, names: Seq<String>) -> Seq<
    (Seq<char>, u64),
>
    decreases names.len(),
{
    if names.len() == 0 {
        seq![]
    } else {
        let rest = kept_entries(previous, names.drop_last());
        match got_index(previous, names.last()@) {
            Some(i) => rest.push((names.last()@, i)),
            None => rest,
        }
    }
}

/// The names that the previous layout does not hold, in order.
pub open spec fn fresh_names(previous: Seq<(String, u64)>, names: Seq<String>) -> Seq<Seq<char>>
    decreases names.len(),
{
    if names.len() == 0 {
        seq![]
    } else {
        let rest = fresh_names(previous, names.drop_last());
        match got_index(previous, names.last()@) {
            Some(_) => rest,
            None => rest.push(names.last()@),
        }
    }
}

/// Whether `fresh` are the smallest indices that `kept` leaves free, in
/// increasing order: each is free, and every smaller index is taken by
/// `kept` or by an earlier one of `fresh`.
pub open spec fn smallest_free(kept: Seq<u64>, fresh: Seq<u64>) -> bool {
    &&& forall|a: int, b: int| 0 <= a < b < fresh.len() ==> fresh[a] < fresh[b]
    &&& forall|k: int| 0 <= k < fresh.len() ==> !kept.contains(#[trigger] fresh[k])
    &&& forall|k: int, i: u64|
        #![trigger fresh[k], kept.contains(i)]
        0 <= k < fresh.len() && i < fresh[k] ==> kept.contains(i) || fresh.subrange(
            0,
            k,
        ).contains(i)
}

/// The size of a table that holds the indices: one more than the largest,
/// 0 for none.
pub open spec fn table_size(indices: Seq<u64>) -> int
    decreases indices.len(),
{
    if indices.len() == 0 {
        0
    } else {
        let rest = table_size(indices.drop_last());
        if indices.last() + 1 > rest {
            indices.last() + 1
        } else {
            rest
        }
    }
}

/// The names and indices of the entries.
pub open spec fn entry_views(entries: Seq<(String, u64)>) -> Seq<(Seq<char>, u64)> {
    entries.map_values(|e: (String, u64)| (e.0@, e.1))
}

/// The indices of the entries.
pub open spec fn entry_indices(entries: Seq<(String, u64)>) -> Seq<u64> {
    entries.map_values(|e: (String, u64)| e.1)
}

/// The index that the previous layout gives a name.
fn find_index(previous: &Vec<(String, u64)>, name: &String) -> (r: Option<u64>)
    ensures
        r == got_index(previous@, name@),
{
    let mut found: Option<u64> = None;
    let mut i: usize = 0;
    while i < previous.len()
        invariant
            i <= previous.len(),
            found == got_index(previous@.subrange(0, i as int), name@),
        decreases previous.len() - i,
    {
        if previous[i].0 == *name {
            found = Some(previous[i].1);
        }
        i = i + 1;
        assert(previous@.subrange(0, i as int).drop_last() =~= previous@.subrange(0, i - 1));
    }
    assert(previous@.subrange(0, previous.len() as int) =~= previous@);
    found
}

/// Whether `v` is one of `used`.
fn holds(used: &Vec<u64>, v: u64) -> (r: bool)
    ensures
        r == used@.contains(v),
{
    let mut i: usize = 0;
    while i < used.len()
        invariant
            i <= used.len(),
            forall|j: int| 0 <= j < i ==> used@[j] != v,
        decreases used.len() - i,
    {
        if used[i] == v {
            return true;
        }
        i = i + 1;
    }
    false
}

/// Where every index below `n` is used, there are at least `n` used
/// indices.
proof fn lemma_used_prefix(used: Seq<u64>, n: int)
    requires
        0 <= n <= u64::MAX,
        forall|i: u64| i < n ==> #[trigger] used.contains(i),
    ensures
        n <= used.len(),
{
    let m = used.map_values(|x: u64| x as int);
    assert forall|i: int| vstd::set_lib::set_int_range(0, n).contains(i) implies m.to_set().contains(
        i,
    ) by {
        assert(used.contains(i as u64));
        let j = choose|j: int| 0 <= j < used.len() && used[j] == i as u64;
        assert(m[j] == i);
    }
    vstd::set_lib::lemma_int_range(0, n);
    m.lemma_cardinality_of_set();
    vstd::seq_lib::seq_to_set_is_finite(m);
    vstd::set_lib::lemma_len_subset(vstd::set_lib::set_int_range(0, n), m.to_set());
}

/// The layout of the global offset table for `names`, given the layout of
/// the previous build: names that the previous layout holds keep their
/// indices (and come first, in order); the other names get, in order, the
/// smallest indices left free. Also the size of the table: one more than the
/// largest index.
pub fn got_layout(previous: &Vec<(String, u64)>, names: &Vec<String>) -> (r: (
    Vec<(String, u64)>,
    u64,
))
    requires
        names@.len() < u64::MAX,
        forall|k: int|
            0 <= k < names@.len() ==> got_index(previous@, #[trigger] names@[k]@) != Some(
                u64::MAX,
            ),
    ensures
        entry_views(r.0@).len() == kept_entries(previous@, names@).len() + fresh_names(
            previous@,
            names@,
        ).len(),
        entry_views(r.0@).subrange(0, kept_entries(previous@, names@).len() as int)
            == kept_entries(previous@, names@),
        forall|j: int|
            0 <= j < fresh_names(previous@, names@).len() ==> entry_views(r.0@)[kept_entries(
                previous@,
                names@,
            ).len() + j].0 == #[trigger] fresh_names(previous@, names@)[j],
        smallest_free(
            entry_indices(r.0@).subrange(0, kept_entries(previous@, names@).len() as int),
            entry_indices(r.0@).subrange(
                kept_entries(previous@, names@).len() as int,
                r.0@.len() as int,
            ),
        ),
        r.1 == table_size(entry_indices(r.0@)),
{
    let mut entries: Vec<(String, u64)> = Vec::new();
    let mut fresh: Vec<String> = Vec::new();
    let mut used: Vec<u64> = Vec::new();
    let mut i: usize = 0;
    while i < names.len()
        invariant
            i <= names.len(),
            names@.len() < u64::MAX,
            forall|k: int|
                0 <= k < names@.len() ==> got_index(previous@, #[trigger] names@[k]@) != Some(
                    u64::MAX,
                ),
            entry_views(entries@) == kept_entries(previous@, names@.subrange(0, i as int)),
            fresh@.map_values(|f: String| f@) == fresh_names(
                previous@,
                names@.subrange(0, i as int),
            ),
            used@ == entry_indices(entries@),
            forall|k: int| 0 <= k < used@.len() ==> #[trigger] used@[k] < u64::MAX,
            fresh@.len() + entries@.len() == i,
        decreases names.len() - i,
    {
        assert(names@.subrange(0, i + 1).drop_last() =~= names@.subrange(0, i as int));
        assert(names@.subrange(0, i + 1).last() == names@[i as int]);
        let ghost (e0, f0, u0) = (entries@, fresh@, used@);
        match find_index(previous, &names[i]) {
            Some(ix) => {
                assert(got_index(previous@, names@[i as int]@) != Some(u64::MAX));
                entries.push((names[i].clone(), ix));
                used.push(ix);
                assert(entry_views(entries@) =~= entry_views(e0).push((names@[i as int]@, ix)));
                assert(entry_indices(entries@) =~= entry_indices(e0).push(ix));
            },
            None => {
                fresh.push(names[i].clone());
                assert(fresh@.map_values(|f: String| f@) =~= f0.map_values(|f: String| f@).push(
                    names@[i as int]@,
                ));
            },
        }
        i = i + 1;
    }
    assert(names@.subrange(0, names.len() as int) =~= names@);
    let kept_len = entries.len();
    let ghost kept = entry_views(entries@);
    let ghost kept_idx = used@;
    let mut idx: u64 = 0;
    let mut j: usize = 0;
    while j < fresh.len()
        invariant
            j <= fresh.len(),
            kept_len + fresh@.len() == names@.len(),
            names@.len() < u64::MAX,
            kept_len == kept_idx.len(),
            entries@.len() == kept_len + j,
            entry_views(entries@).subrange(0, kept_len as int) == kept,
            forall|t: int|
                0 <= t < j ==> entry_views(entries@)[kept_len + t].0 == #[trigger] fresh@[t]@,
            used@ == entry_indices(entries@),
            used@.subrange(0, kept_len as int) == kept_idx,
            smallest_free(kept_idx, used@.subrange(kept_len as int, used@.len() as int)),
            forall|v: u64| v < idx ==> #[trigger] used@.contains(v),
            j > 0 ==> used@.last() == idx,
            j == 0 ==> idx == 0,
            forall|k: int| 0 <= k < used@.len() ==> #[trigger] used@[k] < u64::MAX,
        decreases fresh.len() - j,
    {
        let ghost start = idx;
        while holds(&used, idx)
            invariant
                forall|v: u64| v < idx ==> #[trigger] used@.contains(v),
                idx >= start,
                used@.len() <= names@.len(),
                names@.len() < u64::MAX,
            decreases u64::MAX - idx,
        {
            proof {
                lemma_used_prefix(used@, idx as int);
                assert forall|v: u64| v < idx + 1 implies #[trigger] used@.contains(v) by {
                    if v == idx {
                    }
                }
                lemma_used_prefix(used@, idx + 1);
            }
            idx = idx + 1;
        }
        proof {
            lemma_used_prefix(used@, idx as int);
        }
        let ghost f = used@.subrange(kept_len as int, used@.len() as int);
        let ghost e0 = entries@;
        let ghost u0 = used@;
        entries.push((fresh[j].clone(), idx));
        used.push(idx);
        proof {
            assert(entry_views(entries@) =~= entry_views(e0).push((fresh@[j as int]@, idx)));
            assert(entry_indices(entries@) =~= entry_indices(e0).push(idx));
            assert(used@.subrange(0, kept_len as int) =~= u0.subrange(0, kept_len as int));
            let g = used@.subrange(kept_len as int, used@.len() as int);
            assert(g =~= f.push(idx));
            assert(u0 =~= kept_idx + f);
            // the new index is above the earlier ones
            if j > 0 {
                assert(u0.contains(u0.last()));
                assert(idx != u0.last());
                assert(f.last() == u0.last());
            }
            assert forall|a: int, b: int| 0 <= a < b < g.len() implies g[a] < g[b] by {
                if b == g.len() - 1 && a < b {
                    assert(f.len() > 0);
                    if a < f.len() - 1 {
                        assert(f[a] < f[f.len() - 1]);
                    }
                }
            }
            assert forall|k: int| 0 <= k < g.len() implies !kept_idx.contains(#[trigger] g[k]) by {
                if k == g.len() - 1 {
                    if kept_idx.contains(idx) {
                        let w = choose|w: int| 0 <= w < kept_idx.len() && kept_idx[w] == idx;
                        assert(u0[w] == idx);
                    }
                } else {
                    assert(g[k] == f[k]);
                }
            }
            assert forall|k: int, v: u64|
                #![trigger g[k], kept_idx.contains(v)]
                0 <= k < g.len() && v < g[k] implies kept_idx.contains(v) || g.subrange(
                    0,
                    k,
                ).contains(v) by {
                if k == g.len() - 1 {
                    assert(u0.contains(v));
                    let w = choose|w: int| 0 <= w < u0.len() && u0[w] == v;
                    if w < kept_len {
                        assert(kept_idx[w] == v);
                    } else {
                        assert(g.subrange(0, k)[w - kept_len] == v);
                    }
                } else {
                    assert(g[k] == f[k]);
                    assert(g.subrange(0, k) =~= f.subrange(0, k));
                    if !kept_idx.contains(v) {
                        assert(f.subrange(0, k).contains(v));
                    }
                }
            }
            assert forall|v: u64| v < idx implies #[trigger] used@.contains(v) by {
                assert(u0.contains(v));
                let w = choose|w: int| 0 <= w < u0.len() && u0[w] == v;
                assert(used@[w] == v);
            }
            assert forall|t: int| 0 <= t < j + 1 implies entry_views(entries@)[kept_len + t].0
                == #[trigger] fresh@[t]@ by {
                if t < j {
                    assert(entry_views(entries@)[kept_len + t] == entry_views(e0)[kept_len + t]);
                }
            }
            assert(entry_views(entries@).subrange(0, kept_len as int) =~= entry_views(e0).subrange(
                0,
                kept_len as int,
            ));
        }
        j = j + 1;
    }
    let mut size: u64 = 0;
    let mut t: usize = 0;
    while t < used.len()
        invariant
            t <= used@.len(),
            size == table_size(used@.subrange(0, t as int)),
            forall|k: int| 0 <= k < used@.len() ==> #[trigger] used@[k] < u64::MAX,
        decreases used.len() - t,
    {
        assert(used@.subrange(0, t + 1).drop_last() =~= used@.subrange(0, t as int));
        if used[t] + 1 > size {
            size = used[t] + 1;
        }
        t = t + 1;
    }
    assert(used@.subrange(0, used.len() as int) =~= used@);
    (entries, size)
}

} // verus!
