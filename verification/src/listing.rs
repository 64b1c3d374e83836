//! Filtering a directory listing: when hidden entries are not shown, an
//! entry survives only if the provider produced it and its name does not
//! start with a dot. An entry the provider failed to produce is dropped
//! rather than failing the whole listing.

use vstd::prelude::*;

verus! {

/// An entry name that the listing filter drops: its first byte is a dot.
pub open spec fn entry_hidden(name: Seq<u8>) -> bool {
    name.len() > 0 && name[0] == 46u8
}

/// The entries that survive filtering, in their original relative order:
/// each entry the provider produced whose name is not hidden. `None` stands
/// for an entry the provider reported an error for; it is dropped.
pub open spec fn visible_listing(entries: Seq<Option<Seq<u8>>>) -> Seq<Seq<u8>>
    decreases entries.len(),
{
    if entries.len() == 0 {
        Seq::empty()
    } else {
        let rest = visible_listing(entries.drop_first());
        match entries[0] {
            Option::Some(name) => if entry_hidden(name) {
                rest
            } else {
                seq![name] + rest
            },
            Option::None => rest,
        }
    }
}

/// The per-entry rule, applied to one item of the provider's stream:
/// keep the entry exactly when it was produced and its name is not hidden.
pub fn keep_entry(entry: &Option<Vec<u8>>) -> (b: bool)
    ensures
        b == match *entry {
            Option::Some(name) => !entry_hidden(name@),
            Option::None => false,
        },
{
    match entry {
        Option::Some(name) => !(name.len() > 0 && name[0] == 46u8),
        Option::None => false,
    }
}

/// Applies the per-entry rule to a whole listing at once, preserving the
/// relative order of the surviving entries.
pub fn filter_listing(entries: Vec<Option<Vec<u8>>>) -> (r: Vec<Vec<u8>>)
    ensures
        r.deep_view() == visible_listing(entries.deep_view()),
{
    let ghost orig = entries.deep_view();
    let mut work = entries;
    let mut r: Vec<Vec<u8>> = Vec::new();
    proof {
        assert(r.deep_view() =~= Seq::<Seq<u8>>::empty());
        assert(Seq::<Seq<u8>>::empty() + visible_listing(orig) =~= visible_listing(orig));
    }
    while work.len() > 0
        invariant
            visible_listing(orig) == r.deep_view() + visible_listing(work.deep_view()),
        decreases work.len(),
    {
        let ghost pre = work.deep_view();
        let ghost prevals = work@;
        let keep = keep_entry(&work[0]);
        let e = work.remove(0);
        proof {
            assert forall|j: int| 0 <= j < work@.len() implies
                work.deep_view()[j] == pre.drop_first()[j] by {
                assert(work@[j] == prevals[j + 1]);
            }
            assert(work.deep_view() =~= pre.drop_first());
            match prevals[0] {
                Option::Some(v) => {
                    assert(v.deep_view() =~= v@);
                    assert(pre[0] == Option::Some(v@));
                },
                Option::None => {
                    assert(pre[0] == Option::None::<Seq<u8>>);
                },
            }
        }
        if keep {
            let name = e.unwrap();
            let ghost rdv = r.deep_view();
            let ghost nv = name@;
            proof {
                assert(pre[0] == Option::Some(nv));
                assert(!entry_hidden(nv));
                assert(visible_listing(pre) == seq![nv] + visible_listing(pre.drop_first()));
            }
            r.push(name);
            proof {
                assert(r.deep_view() =~= rdv.push(nv));
                assert(rdv + (seq![nv] + visible_listing(work.deep_view())) =~= rdv.push(nv)
                    + visible_listing(work.deep_view()));
            }
        } else {
            proof {
                assert(visible_listing(pre) == visible_listing(pre.drop_first()));
            }
        }
    }
    proof {
        assert(work.deep_view() =~= Seq::<Option<Seq<u8>>>::empty());
        assert(visible_listing(work.deep_view()) =~= Seq::<Seq<u8>>::empty());
        assert(r.deep_view() + Seq::<Seq<u8>>::empty() =~= r.deep_view());
    }
    r
}

} // verus!
