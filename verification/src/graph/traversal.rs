//! Breadth-first traversal of the knowledge graph.
//!
//! The traversal asks its storage for the direct neighbours of a batch of
//! nodes, level by level.  Here it is a state machine: `next_request` says
//! which nodes to ask about next (or that the traversal is over), and
//! `absorb` takes the answer.  Nodes and edges are told apart by their key
//! text; each is kept once, in the order first seen.  A level asks about at
//! most `max_entities_per_level` nodes (the rest of the frontier is counted
//! as deferred and dropped), and the traversal stops as soon as
//! `max_total_entities` nodes were found.

use vstd::prelude::*;
use crate::types::{record_key_to_string, Thing};

verus! {

/// How a traversal was carried out.
#[derive(Clone, Copy, Debug, PartialEq, Eq, Structural)]
pub enum TraversalStrategy {
    /// One request for the start node's direct neighbours.
    Direct,
    /// Level-by-level breadth-first search.
    Bfs,
}

/// Limits of a traversal.
#[derive(Clone, Copy, Debug)]
pub struct TraversalConfig {
    pub max_depth: usize,
    pub max_entities_per_level: usize,
    pub max_total_entities: usize,
}

impl Default for TraversalConfig {
    /// Depth 5, 100 nodes per level, 1000 nodes in all.
    fn default() -> (r: Self)
        ensures
            r.max_depth == 5,
            r.max_entities_per_level == 100,
            r.max_total_entities == 1000,
    {
        TraversalConfig { max_depth: 5, max_entities_per_level: 100, max_total_entities: 1000 }
    }
}

/// What a traversal found.
pub struct TraversalResult<E, R> {
    pub entities: Vec<E>,
    pub relations: Vec<R>,
    pub strategy_used: TraversalStrategy,
    pub depth_reached: usize,
    pub truncated: bool,
    pub deferred_count: usize,
}

/// The requested depth brought into `1..=max_depth`.
pub open spec fn clamped_depth(depth: usize, max_depth: usize) -> usize {
    if depth < 1 {
        1
    } else if depth > max_depth {
        max_depth
    } else {
        depth
    }
}

/// Brings a requested depth into `1..=max_depth` (`usize::clamp`, which
/// panics on `max_depth == 0`).
pub fn clamp_depth(depth: usize, config: &TraversalConfig) -> (r: usize)
    requires
        config.max_depth >= 1,
    ensures
        r == clamped_depth(depth, config.max_depth),
{
    if depth < 1 {
        1
    } else if depth > config.max_depth {
        config.max_depth
    } else {
        depth
    }
}

/// The result of a depth-one traversal: the start node's direct
/// neighbours and edges as the storage gave them.
pub fn direct_result<E, R>(entities: Vec<E>, relations: Vec<R>) -> (r: TraversalResult<E, R>)
    ensures
        r.entities@ == entities@,
        r.relations@ == relations@,
        r.strategy_used == TraversalStrategy::Direct,
        r.depth_reached == 1,
        !r.truncated,
        r.deferred_count == 0,
{
    TraversalResult {
        entities,
        relations,
        strategy_used: TraversalStrategy::Direct,
        depth_reached: 1,
        truncated: false,
        deferred_count: 0,
    }
}

/// The key text of a record's identifier (empty without one), by which the
/// traversal tells nodes and edges apart.
pub fn record_key(id: &Option<Thing>) -> (r: String)
    ensures
        r@ == match id {
            Some(t) => crate::types::record::key_text(t.key),
            None => Seq::<char>::empty(),
        },
{
    match id {
        Some(t) => record_key_to_string(&t.key),
        None => String::new(),
    }
}

/// The texts of some strings.
pub open spec fn texts(v: Seq<String>) -> Seq<Seq<char>> {
    v.map_values(|s: String| s@)
}

/// Keeping the edges of a batch whose keys were not seen: the keys seen
/// afterwards and the edges kept, in order.
pub open spec fn absorb_edges<R>(seen: Seq<Seq<char>>, items: Seq<(String, R)>) -> (Seq<Seq<char>>, Seq<R>)
    decreases items.len(),
{
    if items.len() == 0 {
        (seen, seq![])
    } else {
        let prev = absorb_edges(seen, items.drop_last());
        let (k, r) = items.last();
        if prev.0.contains(k@) {
            prev
        } else {
            (prev.0.push(k@), prev.1.push(r))
        }
    }
}

/// Node absorption state: keys seen, nodes found, next frontier, stopped.
pub type NodeState<E> = (Seq<Seq<char>>, Seq<E>, Seq<Seq<char>>, bool);

/// Keeping the nodes of a batch whose keys were not seen, each also going
/// to the next frontier, until `max_total` nodes were found.
pub open spec fn absorb_nodes<E>(st: NodeState<E>, items: Seq<(String, E)>, max_total: usize) -> NodeState<E>
    decreases items.len(),
{
    if items.len() == 0 {
        st
    } else {
        let prev = absorb_nodes(st, items.drop_last(), max_total);
        let (k, e) = items.last();
        if prev.3 || prev.0.contains(k@) {
            prev
        } else {
            let found = prev.1.push(e);
            (prev.0.push(k@), found, prev.2.push(k@), found.len() >= max_total)
        }
    }
}

/// The most nodes a traversal finds: `max_total_entities`, but at least
/// one (the first node found always counts).
pub open spec fn entity_cap(max_total: usize) -> nat {
    if max_total == 0 {
        1
    } else {
        max_total as nat
    }
}

/// Absorbing nodes only adds keys: the keys seen before stay first, in
/// order.
pub proof fn lemma_absorb_nodes_extends<E>(st: NodeState<E>, items: Seq<(String, E)>, max_total: usize)
    ensures
        st.0.is_prefix_of(absorb_nodes(st, items, max_total).0),
    decreases items.len(),
{
    if items.len() > 0 {
        lemma_absorb_nodes_extends(st, items.drop_last(), max_total);
        let prev = absorb_nodes(st, items.drop_last(), max_total);
        let (k, e) = items.last();
        if !(prev.3 || prev.0.contains(k@)) {
            assert(prev.0.push(k@).take(st.0.len() as int) =~= prev.0.take(st.0.len() as int));
        }
    }
}

/// `s` holds no text twice.
pub open spec fn distinct(s: Seq<Seq<char>>) -> bool {
    forall|i: int, j: int| 0 <= i < j < s.len() ==> s[i] != s[j]
}

/// A breadth-first traversal in progress.
pub struct BfsTraversal<E, R> {
    pub config: TraversalConfig,
    pub depth: usize,
    pub current_depth: usize,
    pub seen_nodes: Vec<String>,
    pub seen_edges: Vec<String>,
    pub entities: Vec<E>,
    pub relations: Vec<R>,
    pub frontier: Vec<String>,
    pub deferred_count: usize,
    pub truncated: bool,
    pub depth_reached: usize,
    pub stopped: bool,
}

/// Whether `k` is among `v`.
pub(crate) fn contains_text(v: &Vec<String>, k: &String) -> (r: bool)
    ensures
        r == texts(v@).contains(k@),
{
    let mut i: usize = 0;
    while i < v.len()
        invariant
            i <= v@.len(),
            forall|j: int| 0 <= j < i ==> v@[j]@ != k@,
        decreases v.len() - i,
    {
        if v[i] == *k {
            proof {
                assert(texts(v@)[i as int] == k@);
            }
            return true;
        }
        i = i + 1;
    }
    proof {
        if texts(v@).contains(k@) {
            let j = choose|j: int| 0 <= j < texts(v@).len() && texts(v@)[j] == k@;
            assert(v@[j]@ == k@);
        }
    }
    false
}

impl<E, R> BfsTraversal<E, R> {
    /// The seen keys are distinct, and there are as many found nodes as
    /// seen node keys besides the start; at most `entity_cap` nodes were
    /// found, fewer while the traversal goes on; the levels done are at
    /// most the depth asked for; a stopped traversal is truncated, and a
    /// traversal is truncated exactly when it dropped frontier nodes.
    pub open spec fn wf(&self) -> bool {
        &&& distinct(texts(self.seen_nodes@))
        &&& distinct(texts(self.seen_edges@))
        &&& self.seen_nodes@.len() == self.entities@.len() + 1
        &&& self.seen_edges@.len() == self.relations@.len()
        &&& self.entities@.len() <= entity_cap(self.config.max_total_entities)
        &&& !self.stopped ==> self.entities@.len() < entity_cap(self.config.max_total_entities)
        &&& self.stopped ==> self.truncated
        &&& self.current_depth <= self.depth
        &&& self.depth_reached == self.current_depth
        &&& self.truncated <==> self.deferred_count > 0
    }

    /// Starts a traversal from `start` to depth `depth`: the start is seen
    /// and is the whole frontier.
    pub fn start(start: String, depth: usize, config: TraversalConfig) -> (r: Self)
        ensures
            r.wf(),
            r.config == config,
            r.depth == depth,
            r.current_depth == 0,
            texts(r.seen_nodes@) == seq![start@],
            r.seen_edges@.len() == 0,
            r.entities@.len() == 0,
            r.relations@.len() == 0,
            texts(r.frontier@) == seq![start@],
            r.deferred_count == 0,
            !r.truncated,
            r.depth_reached == 0,
            !r.stopped,
    {
        let mut seen_nodes: Vec<String> = Vec::new();
        seen_nodes.push(start.clone());
        let mut frontier: Vec<String> = Vec::new();
        frontier.push(start);
        proof {
            assert(texts(seen_nodes@) =~= seq![start@]);
            assert(texts(frontier@) =~= seq![start@]);
        }
        BfsTraversal {
            config,
            depth,
            current_depth: 0,
            seen_nodes,
            seen_edges: Vec::new(),
            entities: Vec::new(),
            relations: Vec::new(),
            frontier,
            deferred_count: 0,
            truncated: false,
            depth_reached: 0,
            stopped: false,
        }
    }

    /// The nodes to ask about for the next level, or `None` when the
    /// traversal is over (stopped, all levels done, or nothing left).  A
    /// level takes the whole frontier: its first `max_entities_per_level`
    /// keys are asked about and the others counted as deferred.
    pub fn next_request(&mut self) -> (r: Option<Vec<String>>)
        requires
            old(self).wf(),
        ensures
            final(self).wf(),
            final(self).seen_nodes == old(self).seen_nodes,
            final(self).seen_edges == old(self).seen_edges,
            final(self).entities == old(self).entities,
            final(self).relations == old(self).relations,
            final(self).config == old(self).config,
            final(self).depth == old(self).depth,
            final(self).stopped == old(self).stopped,
            r is None <==> (old(self).stopped || old(self).current_depth >= old(self).depth
                || old(self).frontier@.len() == 0),
            r is None ==> *final(self) == *old(self),
            r matches Some(batch) ==> {
                let f = old(self).frontier@;
                let n = if f.len() > old(self).config.max_entities_per_level {
                    old(self).config.max_entities_per_level as int
                } else {
                    f.len() as int
                };
                &&& batch@ == f.take(n)
                &&& batch@.len() <= old(self).config.max_entities_per_level
                &&& old(self).config.max_entities_per_level >= 1 ==> batch@.len() >= 1
                &&& final(self).frontier@.len() == 0
                &&& final(self).current_depth == old(self).current_depth + 1
                &&& final(self).depth_reached == old(self).current_depth + 1
                &&& final(self).deferred_count == old(self).deferred_count.saturating_add((f.len() - n) as usize)
                &&& final(self).truncated == (old(self).truncated || f.len() > n)
            },
    {
        if self.stopped || self.current_depth >= self.depth || self.frontier.len() == 0 {
            return None;
        }
        self.current_depth = self.current_depth + 1;
        self.depth_reached = self.current_depth;
        let mut batch: Vec<String> = Vec::new();
        std::mem::swap(&mut batch, &mut self.frontier);
        let limit = self.config.max_entities_per_level;
        if batch.len() > limit {
            let deferred = batch.len() - limit;
            self.deferred_count = self.deferred_count.saturating_add(deferred);
            self.truncated = true;
            batch.truncate(limit);
        }
        Some(batch)
    }

    /// Takes the storage's answer for the last request: new edges are kept,
    /// new nodes are kept and form the next frontier, until
    /// `max_total_entities` nodes were found; then the traversal stops,
    /// truncated, counting the frontier as deferred.
    pub fn absorb(&mut self, nodes: Vec<(String, E)>, edges: Vec<(String, R)>)
        requires
            old(self).wf(),
        ensures
            final(self).wf(),
            ({
                let ae = absorb_edges(texts(old(self).seen_edges@), edges@);
                &&& texts(final(self).seen_edges@) == ae.0
                &&& final(self).relations@ == old(self).relations@ + ae.1
            }),
            ({
                let an = absorb_nodes(
                    (texts(old(self).seen_nodes@), old(self).entities@, texts(old(self).frontier@), old(self).stopped),
                    nodes@,
                    old(self).config.max_total_entities,
                );
                &&& texts(final(self).seen_nodes@) == an.0
                &&& final(self).entities@ == an.1
                &&& texts(final(self).frontier@) == an.2
                &&& final(self).stopped == an.3
                &&& final(self).truncated == (old(self).truncated || an.3)
                &&& final(self).deferred_count == (if an.3 && !old(self).stopped {
                    old(self).deferred_count.saturating_add(an.2.len() as usize)
                } else {
                    old(self).deferred_count
                })
            }),
            texts(old(self).seen_nodes@).is_prefix_of(texts(final(self).seen_nodes@)),
            final(self).config == old(self).config,
            final(self).depth == old(self).depth,
            final(self).current_depth == old(self).current_depth,
            final(self).depth_reached == old(self).depth_reached,
    {
        self.absorb_edges_exec(edges);
        proof {
            lemma_absorb_nodes_extends(
                (texts(self.seen_nodes@), self.entities@, texts(self.frontier@), self.stopped),
                nodes@,
                self.config.max_total_entities,
            );
        }
        self.absorb_nodes_exec(nodes);
    }

    fn absorb_edges_exec(&mut self, edges: Vec<(String, R)>)
        requires
            old(self).wf(),
        ensures
            final(self).wf(),
            ({
                let ae = absorb_edges(texts(old(self).seen_edges@), edges@);
                &&& texts(final(self).seen_edges@) == ae.0
                &&& final(self).relations@ == old(self).relations@ + ae.1
            }),
            final(self).seen_nodes == old(self).seen_nodes,
            final(self).entities == old(self).entities,
            final(self).frontier == old(self).frontier,
            final(self).stopped == old(self).stopped,
            final(self).truncated == old(self).truncated,
            final(self).deferred_count == old(self).deferred_count,
            final(self).config == old(self).config,
            final(self).depth == old(self).depth,
            final(self).current_depth == old(self).current_depth,
            final(self).depth_reached == old(self).depth_reached,
    {
        let ghost all = edges@;
        let ghost seen0 = texts(self.seen_edges@);
        let ghost rel0 = self.relations@;
        let mut rest = edges;
        let mut done: usize = 0;
        let total: usize = rest.len();
        proof {
            assert(all.take(0) =~= Seq::<(String, R)>::empty());
            assert(rest@ =~= all.skip(0));
            assert(rel0 + Seq::<R>::empty() =~= rel0);
        }
        while rest.len() > 0
            invariant
                done <= all.len(),
                all.len() <= usize::MAX,
                rest@ == all.skip(done as int),
                ({
                    let ae = absorb_edges(seen0, all.take(done as int));
                    &&& texts(self.seen_edges@) == ae.0
                    &&& self.relations@ == rel0 + ae.1
                }),
                self.wf(),
                self.seen_nodes == old(self).seen_nodes,
                self.entities == old(self).entities,
                self.frontier == old(self).frontier,
                self.stopped == old(self).stopped,
                self.truncated == old(self).truncated,
                self.deferred_count == old(self).deferred_count,
                self.config == old(self).config,
                self.depth == old(self).depth,
                self.current_depth == old(self).current_depth,
                self.depth_reached == old(self).depth_reached,
            decreases rest@.len(),
        {
            let ghost pre = texts(self.seen_edges@);
            let (k, r) = rest.remove(0);
            proof {
                assert(all.take(done + 1).drop_last() =~= all.take(done as int));
                assert(all.take(done + 1).last() == all[done as int]);
                assert(all[done as int] == (k, r));
                assert(rest@ =~= all.skip(done + 1));
            }
            if !contains_text(&self.seen_edges, &k) {
                let ghost rels = self.relations@;
                self.seen_edges.push(k);
                self.relations.push(r);
                proof {
                    assert(texts(self.seen_edges@) =~= pre.push(k@));
                    assert(distinct(texts(self.seen_edges@)));
                    assert(self.relations@ =~= rels.push(r));
                    let ae = absorb_edges(seen0, all.take(done as int));
                    assert(rel0 + ae.1.push(r) =~= (rel0 + ae.1).push(r));
                }
            }
            done = done + 1;
        }
        proof {
            assert(all.take(done as int) =~= all);
        }
    }

    fn absorb_nodes_exec(&mut self, nodes: Vec<(String, E)>)
        requires
            old(self).wf(),
        ensures
            final(self).wf(),
            ({
                let an = absorb_nodes(
                    (texts(old(self).seen_nodes@), old(self).entities@, texts(old(self).frontier@), old(self).stopped),
                    nodes@,
                    old(self).config.max_total_entities,
                );
                &&& texts(final(self).seen_nodes@) == an.0
                &&& final(self).entities@ == an.1
                &&& texts(final(self).frontier@) == an.2
                &&& final(self).stopped == an.3
                &&& final(self).truncated == (old(self).truncated || an.3)
                &&& final(self).deferred_count == (if an.3 && !old(self).stopped {
                    old(self).deferred_count.saturating_add(an.2.len() as usize)
                } else {
                    old(self).deferred_count
                })
            }),
            final(self).seen_edges == old(self).seen_edges,
            final(self).relations == old(self).relations,
            final(self).config == old(self).config,
            final(self).depth == old(self).depth,
            final(self).current_depth == old(self).current_depth,
            final(self).depth_reached == old(self).depth_reached,
    {
        let ghost all = nodes@;
        let ghost st0: NodeState<E> = (texts(self.seen_nodes@), self.entities@, texts(self.frontier@), self.stopped);
        let max_total = self.config.max_total_entities;
        let mut rest = nodes;
        let mut done: usize = 0;
        let mut hit = self.stopped;
        let total: usize = rest.len();
        proof {
            assert(all.take(0) =~= Seq::<(String, E)>::empty());
            assert(rest@ =~= all.skip(0));
        }
        while rest.len() > 0
            invariant
                done <= all.len(),
                all.len() <= usize::MAX,
                rest@ == all.skip(done as int),
                max_total == self.config.max_total_entities,
                ({
                    let an = absorb_nodes(st0, all.take(done as int), max_total);
                    &&& texts(self.seen_nodes@) == an.0
                    &&& self.entities@ == an.1
                    &&& texts(self.frontier@) == an.2
                    &&& hit == an.3
                }),
                distinct(texts(self.seen_nodes@)),
                distinct(texts(self.seen_edges@)),
                self.seen_nodes@.len() == self.entities@.len() + 1,
                self.seen_edges@.len() == self.relations@.len(),
                self.entities@.len() <= entity_cap(max_total),
                !hit ==> self.entities@.len() < entity_cap(max_total),
                hit && !old(self).stopped ==> self.frontier@.len() > 0,
                old(self).stopped ==> hit,
                self.seen_edges == old(self).seen_edges,
                self.relations == old(self).relations,
                self.stopped == old(self).stopped,
                self.truncated == old(self).truncated,
                self.deferred_count == old(self).deferred_count,
                self.config == old(self).config,
                self.depth == old(self).depth,
                self.current_depth == old(self).current_depth,
                self.depth_reached == old(self).depth_reached,
            decreases rest@.len(),
        {
            let ghost pre = absorb_nodes(st0, all.take(done as int), max_total);
            let (k, e) = rest.remove(0);
            proof {
                assert(all.take(done + 1).drop_last() =~= all.take(done as int));
                assert(all.take(done + 1).last() == all[done as int]);
                assert(all[done as int] == (k, e));
                assert(rest@ =~= all.skip(done + 1));
            }
            if !hit && !contains_text(&self.seen_nodes, &k) {
                self.seen_nodes.push(k.clone());
                self.entities.push(e);
                self.frontier.push(k);
                proof {
                    assert(texts(self.seen_nodes@) =~= pre.0.push(k@));
                    assert(texts(self.frontier@) =~= pre.2.push(k@));
                    assert(self.entities@ =~= pre.1.push(e));
                    assert(distinct(texts(self.seen_nodes@)));
                }
                hit = self.entities.len() >= max_total;
            }
            done = done + 1;
        }
        proof {
            assert(all.take(done as int) =~= all);
        }
        if hit && !self.stopped {
            self.truncated = true;
            self.stopped = true;
            self.deferred_count = self.deferred_count.saturating_add(self.frontier.len());
        }
    }

    /// The limits of a whole traversal.  `start` gives a well-formed state
    /// whose only seen key is the start; `next_request` and `absorb` keep
    /// the state well formed, and `absorb` keeps the keys seen before as a
    /// prefix; each request raises `current_depth` by one.  So at every
    /// point of a traversal from `start`, whatever the storage answered:
    /// the seen node keys are pairwise distinct and only the first is the
    /// start's, the seen edge keys are pairwise distinct, at most
    /// `max_total_entities` nodes (one when that limit is 0) were found, at
    /// most `depth` requests were made and levels reached, and the result is
    /// truncated exactly when some frontier nodes were dropped (counted in
    /// `deferred_count`, which saturates rather than wraps).
    pub proof fn lemma_traversal_limits(&self, start: Seq<char>)
        requires
            self.wf(),
            texts(self.seen_nodes@)[0] == start,
        ensures
            distinct(texts(self.seen_nodes@)),
            distinct(texts(self.seen_edges@)),
            self.relations@.len() == self.seen_edges@.len(),
            forall|i: int| 1 <= i < self.seen_nodes@.len() ==> #[trigger] texts(self.seen_nodes@)[i] != start,
            self.entities@.len() <= entity_cap(self.config.max_total_entities),
            self.entities@.len() + 1 == self.seen_nodes@.len(),
            self.current_depth <= self.depth,
            self.depth_reached == self.current_depth,
            self.truncated <==> self.deferred_count > 0,
    {
        assert forall|i: int| 1 <= i < self.seen_nodes@.len() implies #[trigger] texts(self.seen_nodes@)[i] != start by {
            assert(texts(self.seen_nodes@)[0] != texts(self.seen_nodes@)[i]);
        }
    }

    /// The traversal's result: what was found, the depth reached, whether
    /// anything was left out and how many frontier nodes were.
    pub fn finish(self) -> (r: TraversalResult<E, R>)
        ensures
            r.entities@ == self.entities@,
            r.relations@ == self.relations@,
            r.strategy_used == TraversalStrategy::Bfs,
            r.depth_reached == self.depth_reached,
            r.truncated == self.truncated,
            r.deferred_count == self.deferred_count,
    {
        TraversalResult {
            entities: self.entities,
            relations: self.relations,
            strategy_used: TraversalStrategy::Bfs,
            depth_reached: self.depth_reached,
            truncated: self.truncated,
            deferred_count: self.deferred_count,
        }
    }
}

} // verus!
