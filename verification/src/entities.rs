//! Bookkeeping of the physics world's entities against the stored players.
use vstd::prelude::*;

use crate::text::{copy_string, strings_view};

verus! {

/// Whether `id` is one of `ids`.
pub fn contains_id(ids: &Vec<String>, id: &String) -> (r: bool)
    ensures
        r == strings_view(ids@).contains(id@),
{
    let mut i: usize = 0;
    while i < ids.len()
        invariant
            i <= ids.len(),
            forall|j: int| 0 <= j < i ==> ids@[j]@ != id@,
        decreases ids.len() - i,
    {
        if ids[i] == *id {
            assert(strings_view(ids@)[i as int] == id@);
            return true;
        }
        i = i + 1;
    }
    assert(!strings_view(ids@).contains(id@)) by {
        if strings_view(ids@).contains(id@) {
            let k = choose|k: int| 0 <= k < strings_view(ids@).len() && strings_view(ids@)[k] == id@;
            assert(ids@[k]@ == id@);
        }
    }
    false
}

/// The entities that belong to no stored player, in the order given.
pub open spec fn dangling(entities: Seq<Seq<char>>, players: Seq<Seq<char>>) -> Seq<Seq<char>> {
    entities.filter(|e: Seq<char>| !players.contains(e))
}

/// An entity is dropped exactly when it belongs to no stored player: what stays
/// dangling is an entity, and every entity without a player stays dangling.
pub proof fn lemma_dangling_exact(entities: Seq<Seq<char>>, players: Seq<Seq<char>>, e: Seq<char>)
    ensures
        dangling(entities, players).contains(e) <==> (entities.contains(e) && !players.contains(e)),
{
    let pred = |x: Seq<char>| !players.contains(x);
    if dangling(entities, players).contains(e) {
        entities.lemma_filter_contains_rev(pred, e);
        let k = choose|k: int| 0 <= k < entities.filter(pred).len() && entities.filter(pred)[k] == e;
        entities.lemma_filter_pred(pred, k);
    }
    if entities.contains(e) && !players.contains(e) {
        let k = choose|k: int| 0 <= k < entities.len() && entities[k] == e;
        entities.lemma_filter_contains(pred, k);
    }
}

/// The ids of entities that belong to no stored player: the physics world
/// drops them.
pub fn dangling_ids(entity_ids: &Vec<String>, player_ids: &Vec<String>) -> (ids: Vec<String>)
    ensures
        strings_view(ids@) == dangling(strings_view(entity_ids@), strings_view(player_ids@)),
{
    let ghost es = strings_view(entity_ids@);
    let ghost ps = strings_view(player_ids@);
    let mut out: Vec<String> = Vec::new();
    let mut i: usize = 0;
    while i < entity_ids.len()
        invariant
            i <= entity_ids.len(),
            es == strings_view(entity_ids@),
            ps == strings_view(player_ids@),
            strings_view(out@) == dangling(es.take(i as int), ps),
        decreases entity_ids.len() - i,
    {
        proof {
            reveal_with_fuel(Seq::<_>::filter, 1);
            assert(es.take(i + 1).drop_last() =~= es.take(i as int));
            assert(es.take(i + 1).last() == entity_ids@[i as int]@);
        }
        let ghost before = strings_view(out@);
        if !contains_id(player_ids, &entity_ids[i]) {
            out.push(copy_string(&entity_ids[i]));
            assert(strings_view(out@) =~= before.push(entity_ids@[i as int]@));
        } else {
            assert(strings_view(out@) =~= before);
        }
        i = i + 1;
    }
    assert(es.take(entity_ids.len() as int) =~= es);
    out
}

} // verus!
