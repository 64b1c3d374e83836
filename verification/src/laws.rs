//! The guarantees of the filter, stated over the decision and listing
//! specifications and proved once for all inputs.

use vstd::prelude::*;

use crate::listing::entry_hidden;
use crate::listing::visible_listing;
use crate::path::LogicalPath;
use crate::path::path_hidden;
use crate::policy::Access;
use crate::policy::ListAccess;
use crate::policy::RestrictedFs;
use crate::policy::access_decision;
use crate::policy::list_decision;

verus! {

/// A hidden path is denied everything when hidden entries are not shown:
/// open, metadata and symlink-metadata answer not-found, and so does a
/// listing, all without consulting the underlying provider — whether or
/// not the path exists there.
pub proof fn lemma_hidden_path_denied(fs: RestrictedFs, path: LogicalPath)
    requires
        !fs.spec_show_hidden(),
        path_hidden(path.segments@),
    ensures
        access_decision(fs.spec_show_hidden(), path.segments@) == Access::NotFound,
        list_decision(fs.spec_show_hidden(), path.segments@) == ListAccess::NotFound,
{
}

/// With hidden entries shown, every operation forwards to the underlying
/// provider unchanged, for every path — hidden or not.
pub proof fn lemma_show_hidden_forwards(fs: RestrictedFs, path: LogicalPath)
    requires
        fs.spec_show_hidden(),
    ensures
        access_decision(fs.spec_show_hidden(), path.segments@) == Access::Forward,
        list_decision(fs.spec_show_hidden(), path.segments@) == ListAccess::Forward,
{
}

/// A path with no hidden segment is never denied, whatever the flag:
/// open, metadata and symlink-metadata forward, and a listing is answered
/// from the provider (unchanged, or with only its hidden entries dropped).
pub proof fn lemma_visible_path_forwards(fs: RestrictedFs, path: LogicalPath)
    requires
        !path_hidden(path.segments@),
    ensures
        access_decision(fs.spec_show_hidden(), path.segments@) == Access::Forward,
        list_decision(fs.spec_show_hidden(), path.segments@) != ListAccess::NotFound,
{
}

/// Filtering a listing that holds no hidden entry and no failed entry
/// changes nothing: the surviving names are exactly the provider's names,
/// in the provider's order. Together with `lemma_visible_path_forwards`,
/// a tree with no hidden entries behaves as if the filter were absent.
pub proof fn lemma_listing_all_visible(entries: Seq<Option<Seq<u8>>>)
    requires
        forall|i: int| 0 <= i < entries.len() ==> entries[i] is Some && !entry_hidden(
            entries[i]->0,
        ),
    ensures
        visible_listing(entries) == Seq::new(entries.len(), |i: int| entries[i]->0),
    decreases entries.len(),
{
    if entries.len() == 0 {
        assert(visible_listing(entries) =~= Seq::new(entries.len(), |i: int| entries[i]->0));
    } else {
        let tail = entries.drop_first();
        assert(forall|i: int| 0 <= i < tail.len() ==> tail[i] == entries[i + 1]);
        lemma_listing_all_visible(tail);
        assert(visible_listing(entries) == seq![entries[0]->0] + visible_listing(tail));
        assert(Seq::new(entries.len(), |i: int| entries[i]->0) =~= seq![entries[0]->0]
            + Seq::new(tail.len(), |i: int| tail[i]->0));
    }
}

/// Fail-closed: a filtered listing never leaks. Every surviving entry has
/// a name without a leading dot, and was actually produced by the
/// underlying provider — a survivor is never invented, and neither a
/// hidden name nor a failed entry ever reaches the caller.
pub proof fn lemma_no_hidden_survivor(entries: Seq<Option<Seq<u8>>>, j: int)
    requires
        0 <= j < visible_listing(entries).len(),
    ensures
        !entry_hidden(visible_listing(entries)[j]),
        exists|i: int| 0 <= i < entries.len() && entries[i] == Option::Some(
            visible_listing(entries)[j],
        ),
    decreases entries.len(),
{
    let vis = visible_listing(entries);
    let tail = entries.drop_first();
    match entries[0] {
        Option::Some(name) => {
            if !entry_hidden(name) {
                if j == 0 {
                    assert(vis[0] == name);
                    assert(entries[0] == Option::Some(vis[0]));
                } else {
                    lemma_no_hidden_survivor(tail, j - 1);
                    assert(vis[j] == visible_listing(tail)[j - 1]);
                    let i0 = choose|i: int| 0 <= i < tail.len() && tail[i] == Option::Some(
                        visible_listing(tail)[j - 1],
                    );
                    assert(entries[i0 + 1] == Option::Some(vis[j]));
                }
            } else {
                lemma_no_hidden_survivor(tail, j);
                let i0 = choose|i: int| 0 <= i < tail.len() && tail[i] == Option::Some(
                    visible_listing(tail)[j],
                );
                assert(entries[i0 + 1] == Option::Some(vis[j]));
            }
        },
        Option::None => {
            lemma_no_hidden_survivor(tail, j);
            let i0 = choose|i: int| 0 <= i < tail.len() && tail[i] == Option::Some(
                visible_listing(tail)[j],
            );
            assert(entries[i0 + 1] == Option::Some(vis[j]));
        },
    }
}

/// Nothing visible is withheld: an entry the provider produced whose name
/// has no leading dot survives filtering.
pub proof fn lemma_visible_entry_survives(entries: Seq<Option<Seq<u8>>>, i: int)
    requires
        0 <= i < entries.len(),
        entries[i] is Some,
        !entry_hidden(entries[i]->0),
    ensures
        visible_listing(entries).contains(entries[i]->0),
    decreases entries.len(),
{
    let vis = visible_listing(entries);
    let tail = entries.drop_first();
    if i == 0 {
        assert(vis[0] == entries[0]->0);
        assert(vis.contains(entries[0]->0));
    } else {
        lemma_visible_entry_survives(tail, i - 1);
        let k = choose|k: int| 0 <= k < visible_listing(tail).len() && visible_listing(tail)[k]
            == tail[i - 1]->0;
        match entries[0] {
            Option::Some(name) => {
                if !entry_hidden(name) {
                    assert(vis[k + 1] == visible_listing(tail)[k]);
                    assert(vis.contains(entries[i]->0));
                } else {
                    assert(vis[k] == visible_listing(tail)[k]);
                    assert(vis.contains(entries[i]->0));
                }
            },
            Option::None => {
                assert(vis[k] == visible_listing(tail)[k]);
                assert(vis.contains(entries[i]->0));
            },
        }
    }
}

/// Repeated requests are answered identically: every decision is a pure
/// function of the construction-time flag and of the path alone, so two
/// filters built with the same flag answer the same path alike, however
/// often and in whatever order they are asked.
pub proof fn lemma_decisions_repeatable(
    fs1: RestrictedFs,
    fs2: RestrictedFs,
    p1: LogicalPath,
    p2: LogicalPath,
)
    requires
        fs1.spec_show_hidden() == fs2.spec_show_hidden(),
        p1.segments@ == p2.segments@,
    ensures
        access_decision(fs1.spec_show_hidden(), p1.segments@) == access_decision(
            fs2.spec_show_hidden(),
            p2.segments@,
        ),
        list_decision(fs1.spec_show_hidden(), p1.segments@) == list_decision(
            fs2.spec_show_hidden(),
            p2.segments@,
        ),
{
}

} // verus!
