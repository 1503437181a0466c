//! Name-keyed registries of definitions.
//!
//! A registry is an ordered list of `(name, definition)` entries. Lookup
//! takes the *last* entry with the requested name, so merging an overlay is
//! plain concatenation: entries appended later win on key collision.

use vstd::prelude::*;

verus! {

/// The definition registered under `key`: the last entry with that name.
pub open spec fn lookup<V>(entries: Seq<(Seq<char>, V)>, key: Seq<char>) -> Option<V>
    decreases entries.len(),
{
    if entries.len() == 0 {
        None
    } else if entries.last().0 == key {
        Some(entries.last().1)
    } else {
        lookup(entries.drop_last(), key)
    }
}

/// The view of a registry: each entry's name and definition, deeply viewed.
pub open spec fn entries_view<T: DeepView>(entries: Seq<(String, T)>) -> Seq<(Seq<char>, T::V)> {
    entries.map_values(|e: (String, T)| (e.0@, e.1.deep_view()))
}

/// Looking a key up in a concatenation takes the second registry's entry
/// when it has one — the later source wins.
pub proof fn lemma_lookup_append<V>(a: Seq<(Seq<char>, V)>, b: Seq<(Seq<char>, V)>, key: Seq<char>)
    ensures
        lookup(a + b, key) == if lookup(b, key) is Some {
            lookup(b, key)
        } else {
            lookup(a, key)
        },
    decreases b.len(),
{
    if b.len() == 0 {
        assert(a + b =~= a);
    } else {
        assert((a + b).drop_last() =~= a + b.drop_last());
        assert((a + b).last() == b.last());
        lemma_lookup_append(a, b.drop_last(), key);
    }
}

/// Finds the definition registered under `key`, preferring later entries.
pub fn assoc_get<'a, T: DeepView>(entries: &'a Vec<(String, T)>, key: &String) -> (r: Option<&'a T>)
    ensures
        match r {
            Some(v) => lookup(entries_view(entries@), key@) == Some(v.deep_view()),
            None => lookup(entries_view(entries@), key@) is None,
        },
{
    let ghost ev = entries_view(entries@);
    let n = entries.len();
    let mut i: usize = n;
    proof {
        assert(ev.take(n as int) =~= ev);
    }
    while i > 0
        invariant
            i <= n,
            n == entries.len(),
            ev == entries_view(entries@),
            lookup(ev, key@) == lookup(ev.take(i as int), key@),
        decreases i,
    {
        if entries[i - 1].0 == *key {
            proof {
                assert(ev.take(i as int).last() == ev[i - 1]);
                assert(ev[i - 1].1 == entries@[i - 1].1.deep_view());
            }
            return Some(&entries[i - 1].1);
        }
        proof {
            assert(ev.take(i as int).drop_last() =~= ev.take(i - 1));
        }
        i -= 1;
    }
    proof {
        assert(ev.take(0) =~= Seq::<(Seq<char>, T::V)>::empty());
    }
    None
}

} // verus!
