//! The branch-relationship classifier over plain values: two tip
//! identifiers together with the ancestor walks of the two branches, each
//! walk a sequence of commit identifiers in the history's fixed
//! reverse-chronological order, inclusive of its starting tip.

use vstd::prelude::*;
use crate::ids::{clone_id, id_views, ids_equal};
use crate::relation::{Common, Relation, RelationError};

verus! {

/// The first identifier of `walk` that also occurs in `other`, if any:
/// the nearest common ancestor reported for diverged branches.
pub open spec fn first_shared_spec(walk: Seq<Seq<u8>>, other: Seq<Seq<u8>>) -> Option<Seq<u8>>
    decreases walk.len(),
{
    if walk.len() == 0 {
        None
    } else if other.contains(walk[0]) {
        Some(walk[0])
    } else {
        first_shared_spec(walk.drop_first(), other)
    }
}

/// Whether an ancestor walk holds the given commit identifier.
pub fn walk_contains(walk: &Vec<Vec<u8>>, id: &Vec<u8>) -> (r: bool)
    ensures
        r == id_views(walk@).contains(id@),
{
    let mut i: usize = 0;
    while i < walk.len()
        invariant
            i <= walk.len(),
            forall|j: int| 0 <= j < i ==> id_views(walk@)[j] != id@,
        decreases walk.len() - i,
    {
        if ids_equal(&walk[i], id) {
            proof {
                assert(id_views(walk@)[i as int] == id@);
            }
            return true;
        }
        i = i + 1;
    }
    proof {
        assert forall|j: int| 0 <= j < id_views(walk@).len() implies id_views(walk@)[j] != id@ by {
        }
    }
    false
}

proof fn lemma_first_shared_at(w: Seq<Seq<u8>>, o: Seq<Seq<u8>>, i: int)
    requires
        0 <= i < w.len(),
        o.contains(w[i]),
        forall|j: int| 0 <= j < i ==> !o.contains(w[j]),
    ensures
        first_shared_spec(w, o) == Some(w[i]),
    decreases i,
{
    if i == 0 {
    } else {
        assert(!o.contains(w[0]));
        assert(forall|j: int| 0 <= j < i - 1 ==> w.drop_first()[j] == w[j + 1]);
        lemma_first_shared_at(w.drop_first(), o, i - 1);
    }
}

/// Histories that share no identifier at all admit no common ancestor.
pub proof fn lemma_disjoint_walks_share_nothing(w: Seq<Seq<u8>>, o: Seq<Seq<u8>>)
    requires
        forall|j: int| 0 <= j < w.len() ==> !o.contains(w[j]),
    ensures
        first_shared_spec(w, o) is None,
    decreases w.len(),
{
    if w.len() == 0 {
    } else {
        assert(forall|j: int| 0 <= j < w.len() - 1 ==> w.drop_first()[j] == w[j + 1]);
        lemma_disjoint_walks_share_nothing(w.drop_first(), o);
    }
}

/// A first shared identifier lies on both walks, and no identifier before
/// it on `w` lies on `o`: it is the first match in `w`'s fixed order.
pub proof fn lemma_first_shared_is_first(w: Seq<Seq<u8>>, o: Seq<Seq<u8>>, c: Seq<u8>)
    requires
        first_shared_spec(w, o) == Some(c),
    ensures
        w.contains(c),
        o.contains(c),
        exists|i: int|
            0 <= i < w.len() && w[i] == c && (forall|j: int| 0 <= j < i ==> !o.contains(w[j])),
    decreases w.len(),
{
    if o.contains(w[0]) {
        assert(w[0] == c);
        assert(0 <= 0 < w.len() && w[0] == c && (forall|j: int| 0 <= j < 0 ==> !o.contains(w[j])));
    } else {
        let wt = w.drop_first();
        assert(forall|j: int| 0 <= j < wt.len() ==> wt[j] == w[j + 1]);
        lemma_first_shared_is_first(wt, o, c);
        let k = choose|k: int|
            0 <= k < wt.len() && wt[k] == c && (forall|j: int| 0 <= j < k ==> !o.contains(wt[j]));
        assert(w[k + 1] == c);
        assert(forall|j: int| 0 <= j < k + 1 ==> !o.contains(w[j])) by {
            assert(forall|j: int| 1 <= j < k + 1 ==> w[j] == wt[j - 1]);
        }
        assert(0 <= k + 1 < w.len() && w[k + 1] == c && (forall|j: int|
            0 <= j < k + 1 ==> !o.contains(w[j])));
    }
}

/// The first identifier of `walk` that also occurs in `other`, if any.
pub fn first_shared(walk: &Vec<Vec<u8>>, other: &Vec<Vec<u8>>) -> (r: Option<Vec<u8>>)
    ensures
        r matches Some(c) ==> first_shared_spec(id_views(walk@), id_views(other@)) == Some(c@),
        r is None ==> first_shared_spec(id_views(walk@), id_views(other@)) is None,
{
    let mut i: usize = 0;
    while i < walk.len()
        invariant
            i <= walk.len(),
            forall|j: int| 0 <= j < i ==> !id_views(other@).contains(id_views(walk@)[j]),
        decreases walk.len() - i,
    {
        if walk_contains(other, &walk[i]) {
            proof {
                assert(id_views(walk@)[i as int] == walk@[i as int]@);
                lemma_first_shared_at(id_views(walk@), id_views(other@), i as int);
            }
            return Some(clone_id(&walk[i]));
        }
        i = i + 1;
    }
    proof {
        lemma_disjoint_walks_share_nothing(id_views(walk@), id_views(other@));
    }
    None
}

/// Classifies two tips that are already known to differ and of which
/// neither's walk was found to hold the other's tip first: either the
/// second walk holds the first tip ("in a row", the second branch ahead),
/// or the outcome is the first identifier of `walk1` shared with `walk2`,
/// or the histories are unrelated.
pub fn classify_diverging(branch2: &String, b1: &Vec<u8>, walk1: &Vec<Vec<u8>>, walk2: &Vec<
    Vec<u8>,
>) -> (r: Result<Common, RelationError>)
    ensures
        id_views(walk2@).contains(b1@) ==> (r matches Ok(c) && c.oid@ == b1@ && (
        c.relation matches Relation::Inrow(n) && n@ == branch2@)),
        !id_views(walk2@).contains(b1@) ==> (match first_shared_spec(
            id_views(walk1@),
            id_views(walk2@),
        ) {
            Some(cid) => r matches Ok(c) && c.oid@ == cid && c.relation is Diff,
            None => r == Err::<Common, RelationError>(RelationError::NoCommonAncestor),
        }),
        r matches Ok(c) ==> (c.relation is Diff ==> id_views(walk1@).contains(c.oid@)
            && id_views(walk2@).contains(c.oid@)),
{
    if walk_contains(walk2, b1) {
        return Ok(Common::new(clone_id(b1), Relation::Inrow(branch2.clone())));
    }
    match first_shared(walk1, walk2) {
        Some(c) => {
            proof {
                lemma_first_shared_is_first(id_views(walk1@), id_views(walk2@), c@);
            }
            Ok(Common::new(c, Relation::Diff))
        },
        None => Err(RelationError::NoCommonAncestor),
    }
}

/// Classifies the relationship of two branch tips, given each branch's
/// full ancestor walk: `Same` when the tips coincide, `Inrow` naming the
/// branch that is ahead when one tip lies on the other's walk (the
/// outcome's identifier is the tip that lags behind), `Diff` with the
/// first identifier of `walk1` that lies on `walk2` when the branches
/// have diverged, and `NoCommonAncestor` when the histories share nothing.
pub fn classify(
    branch1: &String,
    branch2: &String,
    b1: &Vec<u8>,
    b2: &Vec<u8>,
    walk1: &Vec<Vec<u8>>,
    walk2: &Vec<Vec<u8>>,
) -> (r: Result<Common, RelationError>)
    ensures
        b1@ == b2@ ==> (r matches Ok(c) && c.oid@ == b1@ && c.relation is Same),
        b1@ != b2@ && id_views(walk1@).contains(b2@) ==> (r matches Ok(c) && c.oid@ == b2@ && (
        c.relation matches Relation::Inrow(n) && n@ == branch1@)),
        b1@ != b2@ && !id_views(walk1@).contains(b2@) && id_views(walk2@).contains(b1@) ==> (
        r matches Ok(c) && c.oid@ == b1@ && (c.relation matches Relation::Inrow(n) && n@
            == branch2@)),
        b1@ != b2@ && !id_views(walk1@).contains(b2@) && !id_views(walk2@).contains(b1@) ==> (
        match first_shared_spec(id_views(walk1@), id_views(walk2@)) {
            Some(cid) => r matches Ok(c) && c.oid@ == cid && c.relation is Diff,
            None => r == Err::<Common, RelationError>(RelationError::NoCommonAncestor),
        }),
        r matches Ok(c) ==> (c.relation is Diff ==> id_views(walk1@).contains(c.oid@)
            && id_views(walk2@).contains(c.oid@)),
{
    if ids_equal(b1, b2) {
        return Ok(Common::new(clone_id(b1), Relation::Same));
    }
    if walk_contains(walk1, b2) {
        return Ok(Common::new(clone_id(b2), Relation::Inrow(branch1.clone())));
    }
    classify_diverging(branch2, b1, walk1, walk2)
}

} // verus!
