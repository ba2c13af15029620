//! Related symbols through several hops of the symbol relation graph.
//!
//! Given the relations fetched from storage, the symbols related to a
//! center symbol are found level by level, to a depth brought into
//! `1..=MAX_RELATED_DEPTH`: each level follows the relations of the
//! symbols found on the level before, and every symbol is reported once,
//! in the order first reached, never the center itself.

use vstd::prelude::*;
use crate::graph::traversal::{contains_text, distinct, texts};
use crate::storage::ids::{thing_text, thing_to_text};
use crate::types::{Direction, SymbolRelation, Thing};

verus! {

/// The deepest a related-symbols query goes.
pub const MAX_RELATED_DEPTH: usize = 3;

/// The requested depth brought into `1..=MAX_RELATED_DEPTH`.
pub open spec fn related_depth(depth: usize) -> usize {
    if depth < 1 {
        1
    } else if depth > MAX_RELATED_DEPTH {
        MAX_RELATED_DEPTH
    } else {
        depth
    }
}

/// Brings a requested depth into `1..=MAX_RELATED_DEPTH`.
pub fn clamp_related_depth(depth: usize) -> (r: usize)
    ensures
        r == related_depth(depth),
{
    if depth < 1 {
        1
    } else if depth > MAX_RELATED_DEPTH {
        MAX_RELATED_DEPTH
    } else {
        depth
    }
}

/// The ids one relation leads to from `node`, looking in `direction`: its
/// target when it starts at `node` (going out), its source when it ends
/// there (coming in), and the other end, when that is not `node`, either
/// way.
pub open spec fn hop(rel: SymbolRelation, direction: Direction, node: Seq<char>) -> Seq<Seq<char>> {
    let from = thing_text(rel.from_symbol);
    let to = thing_text(rel.to_symbol);
    match direction {
        Direction::Outgoing => if from == node {
            seq![to]
        } else {
            seq![]
        },
        Direction::Incoming => if to == node {
            seq![from]
        } else {
            seq![]
        },
        Direction::Both => (if from == node && to != node {
            seq![to]
        } else {
            seq![]
        }) + (if to == node && from != node {
            seq![from]
        } else {
            seq![]
        }),
    }
}

/// The ids the relations lead to from `node`, in relation order.
pub open spec fn node_hops(rels: Seq<SymbolRelation>, direction: Direction, node: Seq<char>) -> Seq<Seq<char>>
    decreases rels.len(),
{
    if rels.len() == 0 {
        seq![]
    } else {
        node_hops(rels.drop_last(), direction, node) + hop(rels.last(), direction, node)
    }
}

/// The ids the relations lead to from each node of a level, in order.
pub open spec fn level_hops(rels: Seq<SymbolRelation>, direction: Direction, level: Seq<Seq<char>>) -> Seq<Seq<char>>
    decreases level.len(),
{
    if level.len() == 0 {
        seq![]
    } else {
        level_hops(rels, direction, level.drop_last()) + node_hops(rels, direction, level.last())
    }
}

/// Taking the ids not seen yet, each once, in order: the ids seen
/// afterwards and the new ones.
pub open spec fn add_unseen(seen: Seq<Seq<char>>, ids: Seq<Seq<char>>) -> (Seq<Seq<char>>, Seq<Seq<char>>)
    decreases ids.len(),
{
    if ids.len() == 0 {
        (seen, seq![])
    } else {
        let prev = add_unseen(seen, ids.drop_last());
        let x = ids.last();
        if prev.0.contains(x) {
            prev
        } else {
            (prev.0.push(x), prev.1.push(x))
        }
    }
}

/// The ids seen and found after `k` more levels, starting from a level.
pub open spec fn levels(
    rels: Seq<SymbolRelation>,
    direction: Direction,
    seen: Seq<Seq<char>>,
    found: Seq<Seq<char>>,
    level: Seq<Seq<char>>,
    k: nat,
) -> (Seq<Seq<char>>, Seq<Seq<char>>)
    decreases k,
{
    if k == 0 {
        (seen, found)
    } else {
        let a = add_unseen(seen, level_hops(rels, direction, level));
        levels(rels, direction, a.0, found + a.1, a.1, (k - 1) as nat)
    }
}

/// The ids related to `center` within `depth` levels (clamped), each once,
/// in the order first reached, without the center.
pub open spec fn related_within(rels: Seq<SymbolRelation>, direction: Direction, center: Seq<char>, depth: usize) -> Seq<Seq<char>> {
    levels(rels, direction, seq![center], seq![], seq![center], related_depth(depth) as nat).1
}

/// The ids seen afterwards hold those seen before, and the new ids are
/// what was added, none seen before and none twice.
pub proof fn lemma_add_unseen(seen: Seq<Seq<char>>, ids: Seq<Seq<char>>)
    ensures
        add_unseen(seen, ids).0 == seen + add_unseen(seen, ids).1,
        forall|i: int| 0 <= i < add_unseen(seen, ids).1.len() ==> !seen.contains(#[trigger] add_unseen(seen, ids).1[i]),
    decreases ids.len(),
{
    if ids.len() > 0 {
        lemma_add_unseen(seen, ids.drop_last());
        let prev = add_unseen(seen, ids.drop_last());
        let x = ids.last();
        if !prev.0.contains(x) {
            assert(seen + prev.1.push(x) =~= (seen + prev.1).push(x));
            assert forall|i: int| 0 <= i < prev.1.push(x).len() implies !seen.contains(#[trigger] prev.1.push(x)[i]) by {
                if i < prev.1.len() {
                    assert(prev.1.push(x)[i] == prev.1[i]);
                } else if seen.contains(x) {
                    let j = choose|j: int| 0 <= j < seen.len() && seen[j] == x;
                    assert(prev.0[j] == x);
                }
            }
        }
    }
}

/// Taking unseen ids keeps the seen ids distinct.
pub proof fn lemma_add_unseen_distinct(seen: Seq<Seq<char>>, ids: Seq<Seq<char>>)
    requires
        distinct(seen),
    ensures
        distinct(add_unseen(seen, ids).0),
    decreases ids.len(),
{
    if ids.len() > 0 {
        lemma_add_unseen_distinct(seen, ids.drop_last());
        let prev = add_unseen(seen, ids.drop_last());
        let x = ids.last();
        if !prev.0.contains(x) {
            assert forall|i: int, j: int| 0 <= i < j < prev.0.push(x).len() implies prev.0.push(x)[i] != prev.0.push(x)[j] by {
                if j == prev.0.len() {
                    assert(prev.0.push(x)[i] == prev.0[i]);
                }
            }
        }
    }
}

/// Over the levels, the seen ids are the center followed by the found
/// ones, all distinct.
pub proof fn lemma_levels_distinct(
    rels: Seq<SymbolRelation>,
    direction: Direction,
    center: Seq<char>,
    found: Seq<Seq<char>>,
    level: Seq<Seq<char>>,
    k: nat,
)
    requires
        distinct(seq![center] + found),
    ensures
        ({
            let r = levels(rels, direction, seq![center] + found, found, level, k);
            &&& r.0 == seq![center] + r.1
            &&& distinct(r.0)
        }),
    decreases k,
{
    if k > 0 {
        let seen = seq![center] + found;
        let a = add_unseen(seen, level_hops(rels, direction, level));
        lemma_add_unseen(seen, level_hops(rels, direction, level));
        lemma_add_unseen_distinct(seen, level_hops(rels, direction, level));
        assert(a.0 == seq![center] + (found + a.1));
        lemma_levels_distinct(rels, direction, center, found + a.1, a.1, (k - 1) as nat);
    }
}

/// The related ids are distinct, and the center is not among them.
pub proof fn lemma_related_distinct(rels: Seq<SymbolRelation>, direction: Direction, center: Seq<char>, depth: usize)
    ensures
        distinct(related_within(rels, direction, center, depth)),
        !related_within(rels, direction, center, depth).contains(center),
{
    assert(seq![center] + Seq::<Seq<char>>::empty() =~= seq![center]);
    lemma_levels_distinct(rels, direction, center, seq![], seq![center], related_depth(depth) as nat);
    let r = related_within(rels, direction, center, depth);
    let all = seq![center] + r;
    assert forall|i: int, j: int| 0 <= i < j < r.len() implies r[i] != r[j] by {
        assert(all[i + 1] == r[i]);
        assert(all[j + 1] == r[j]);
    }
    if r.contains(center) {
        let i = choose|i: int| 0 <= i < r.len() && r[i] == center;
        assert(all[i + 1] == center);
        assert(all[0] == center);
    }
}

/// The ids one relation leads to from `node`.
fn hop_exec(rel: &SymbolRelation, direction: Direction, node: &String, out: &mut Vec<String>)
    ensures
        texts(final(out)@) == texts(old(out)@) + hop(*rel, direction, node@),
{
    let from = thing_to_text(&rel.from_symbol);
    let to = thing_to_text(&rel.to_symbol);
    let ghost before = texts(out@);
    match direction {
        Direction::Outgoing => {
            if from == *node {
                out.push(to);
            }
        },
        Direction::Incoming => {
            if to == *node {
                out.push(from);
            }
        },
        Direction::Both => {
            let from_here = from == *node;
            let to_here = to == *node;
            if from_here && !to_here {
                out.push(to);
            } else if to_here && !from_here {
                out.push(from);
            }
        },
    }
    proof {
        assert(texts(out@) =~= before + hop(*rel, direction, node@));
    }
}

/// The ids the relations lead to from each node of a level.
fn level_hops_exec(relations: &Vec<SymbolRelation>, direction: Direction, level: &Vec<String>) -> (r: Vec<String>)
    ensures
        texts(r@) == level_hops(relations@, direction, texts(level@)),
{
    let mut out: Vec<String> = Vec::new();
    let mut j: usize = 0;
    proof {
        assert(texts(level@).take(0) =~= Seq::<Seq<char>>::empty());
        assert(texts(out@) =~= Seq::<Seq<char>>::empty());
    }
    while j < level.len()
        invariant
            j <= level@.len(),
            texts(out@) == level_hops(relations@, direction, texts(level@).take(j as int)),
        decreases level.len() - j,
    {
        let node = &level[j];
        let ghost at_level = texts(out@);
        let mut i: usize = 0;
        proof {
            assert(relations@.take(0) =~= Seq::<SymbolRelation>::empty());
            assert(at_level + node_hops(relations@, direction, node@).take(0) =~= at_level);
            assert(node_hops(relations@.take(0), direction, node@) =~= Seq::<Seq<char>>::empty());
            assert(at_level + Seq::<Seq<char>>::empty() =~= at_level);
        }
        while i < relations.len()
            invariant
                i <= relations@.len(),
                texts(out@) == at_level + node_hops(relations@.take(i as int), direction, node@),
            decreases relations.len() - i,
        {
            let ghost pre = texts(out@);
            hop_exec(&relations[i], direction, node, &mut out);
            proof {
                assert(relations@.take(i + 1).drop_last() =~= relations@.take(i as int));
                assert(relations@.take(i + 1).last() == relations@[i as int]);
                assert(texts(out@) =~= at_level + node_hops(relations@.take(i + 1), direction, node@));
            }
            i = i + 1;
        }
        proof {
            assert(relations@.take(i as int) =~= relations@);
            assert(texts(level@).take(j + 1).drop_last() =~= texts(level@).take(j as int));
            assert(texts(level@).take(j + 1).last() == node@);
        }
        j = j + 1;
    }
    proof {
        assert(texts(level@).take(j as int) =~= texts(level@));
    }
    out
}

/// Takes the ids not seen yet into `seen`, each once, and gives them.
fn add_unseen_exec(seen: &mut Vec<String>, ids: Vec<String>) -> (r: Vec<String>)
    ensures
        (texts(final(seen)@), texts(r@)) == add_unseen(texts(old(seen)@), texts(ids@)),
{
    let ghost seen0 = texts(seen@);
    let ghost all = texts(ids@);
    let mut new_ids: Vec<String> = Vec::new();
    let mut i: usize = 0;
    proof {
        assert(all.take(0) =~= Seq::<Seq<char>>::empty());
        assert(texts(new_ids@) =~= Seq::<Seq<char>>::empty());
    }
    while i < ids.len()
        invariant
            i <= ids@.len(),
            all == texts(ids@),
            (texts(seen@), texts(new_ids@)) == add_unseen(seen0, all.take(i as int)),
        decreases ids.len() - i,
    {
        let id = &ids[i];
        proof {
            assert(all.take(i + 1).drop_last() =~= all.take(i as int));
            assert(all.take(i + 1).last() == id@);
        }
        if !contains_text(seen, id) {
            let ghost s0 = texts(seen@);
            let ghost n0 = texts(new_ids@);
            seen.push(id.clone());
            new_ids.push(id.clone());
            proof {
                assert(texts(seen@) =~= s0.push(id@));
                assert(texts(new_ids@) =~= n0.push(id@));
            }
        }
        i = i + 1;
    }
    proof {
        assert(all.take(i as int) =~= all);
    }
    new_ids
}

/// The ids of the symbols related to `center` through `relations` within
/// `depth` levels (brought into `1..=MAX_RELATED_DEPTH`): each once, in
/// the order first reached, never the center.
pub fn related_symbols_within(
    relations: &Vec<SymbolRelation>,
    direction: Direction,
    center: &Thing,
    depth: usize,
) -> (r: Vec<String>)
    ensures
        texts(r@) == related_within(relations@, direction, thing_text(*center), depth),
        distinct(texts(r@)),
        !texts(r@).contains(thing_text(*center)),
{
    proof {
        lemma_related_distinct(relations@, direction, thing_text(*center), depth);
    }
    let levels_left = clamp_related_depth(depth);
    let c = thing_to_text(center);
    let mut seen: Vec<String> = Vec::new();
    seen.push(c.clone());
    let mut level: Vec<String> = Vec::new();
    level.push(c);
    let mut found: Vec<String> = Vec::new();
    let mut k: usize = 0;
    proof {
        assert(texts(seen@) =~= seq![thing_text(*center)]);
        assert(texts(level@) =~= seq![thing_text(*center)]);
        assert(texts(found@) =~= Seq::<Seq<char>>::empty());
    }
    while k < levels_left
        invariant
            k <= levels_left,
            levels_left == related_depth(depth),
            levels(relations@, direction, texts(seen@), texts(found@), texts(level@), (levels_left - k) as nat)
                == levels(relations@, direction, seq![thing_text(*center)], seq![], seq![thing_text(*center)], levels_left as nat),
        decreases levels_left - k,
    {
        let hops = level_hops_exec(relations, direction, &level);
        let ghost s0 = texts(seen@);
        let ghost f0 = texts(found@);
        let ghost l0 = texts(level@);
        let fresh = add_unseen_exec(&mut seen, hops);
        let mut more = fresh.clone();
        let ghost fr = texts(fresh@);
        proof {
            assert(texts(more@) == fr) by {
                assert(more@ == fresh@);
            }
        }
        found.append(&mut more);
        proof {
            assert(texts(found@) =~= f0 + fr);
            assert(levels(relations@, direction, s0, f0, l0, (levels_left - k) as nat)
                == levels(relations@, direction, texts(seen@), texts(found@), fr, (levels_left - k - 1) as nat));
        }
        level = fresh;
        k = k + 1;
    }
    found
}

} // verus!
