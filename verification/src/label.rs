//! The label decision: which named nodes of the spawned scene are tagged.

use vstd::prelude::*;

verus! {

/// An entity that carries a display name.
pub struct NamedNode {
    pub entity: u64,
    pub name: String,
}

/// What the label step found: how many named entities it saw, and the
/// entities that get the node marker, in the order in which they were seen.
pub struct Labeling {
    pub count: usize,
    pub marked: Vec<u64>,
}

/// The name of the node to tag.
pub open spec fn target_name() -> Seq<char> {
    "RubberWood_low"@
}

/// A name matches when it is the target name, character for character.
pub open spec fn is_target(name: Seq<char>) -> bool {
    name == target_name()
}

/// The entities among `nodes` whose name matches, in the order of `nodes`.
pub open spec fn marked_entities(nodes: Seq<NamedNode>) -> Seq<u64>
    decreases nodes.len(),
{
    if nodes.len() == 0 {
        Seq::empty()
    } else {
        let earlier = marked_entities(nodes.drop_last());
        if is_target(nodes.last().name@) {
            earlier.push(nodes.last().entity)
        } else {
            earlier
        }
    }
}

/// Whether `name` is the name of the node to tag. The comparison is exact:
/// no trimming, no folding of case.
pub fn matches_target(name: &String) -> (hit: bool)
    ensures
        hit == is_target(name@),
{
    let target: String = "RubberWood_low".to_owned();
    *name == target
}

/// Scans the named entities and picks those that get the node marker.
pub fn label(nodes: &Vec<NamedNode>) -> (found: Labeling)
    ensures
        found.count == nodes@.len(),
        found.marked@ == marked_entities(nodes@),
{
    let mut marked: Vec<u64> = Vec::new();
    let mut i: usize = 0;
    while i < nodes.len()
        invariant
            i <= nodes@.len(),
            marked@ == marked_entities(nodes@.take(i as int)),
        decreases nodes@.len() - i,
    {
        proof {
            assert(nodes@.take(i + 1).drop_last() == nodes@.take(i as int));
        }
        if matches_target(&nodes[i].name) {
            marked.push(nodes[i].entity);
        }
        i = i + 1;
    }
    proof {
        assert(nodes@.take(i as int) == nodes@);
    }
    Labeling { count: nodes.len(), marked }
}

/// An entity is tagged exactly when some node with that entity has the target
/// name; every other entity stays untagged.
pub proof fn lemma_marked_exactly_matching(nodes: Seq<NamedNode>, entity: u64)
    ensures
        marked_entities(nodes).contains(entity) <==> exists|i: int|
            0 <= i < nodes.len() && #[trigger] nodes[i].entity == entity && is_target(
                nodes[i].name@,
            ),
    decreases nodes.len(),
{
    let holds = |s: Seq<NamedNode>|
        exists|i: int|
            0 <= i < s.len() && #[trigger] s[i].entity == entity && is_target(s[i].name@);
    if nodes.len() == 0 {
        assert(!marked_entities(nodes).contains(entity));
    } else {
        let front = nodes.drop_last();
        let last = nodes.last();
        let hit = is_target(last.name@);
        lemma_marked_exactly_matching(front, entity);
        if marked_entities(nodes).contains(entity) {
            let k = choose|k: int|
                0 <= k < marked_entities(nodes).len() && marked_entities(nodes)[k] == entity;
            if hit && k == marked_entities(front).len() {
                assert(nodes[nodes.len() - 1].entity == entity);
            } else {
                assert(marked_entities(front)[k] == entity);
                assert(marked_entities(front).contains(entity));
                let i = choose|i: int|
                    0 <= i < front.len() && #[trigger] front[i].entity == entity && is_target(
                        front[i].name@,
                    );
                assert(nodes[i].entity == entity && is_target(nodes[i].name@));
            }
        }
        if holds(nodes) {
            let i = choose|i: int|
                0 <= i < nodes.len() && #[trigger] nodes[i].entity == entity && is_target(
                    nodes[i].name@,
                );
            if i == nodes.len() - 1 {
                assert(marked_entities(nodes).last() == entity);
            } else {
                assert(front[i].entity == entity && is_target(front[i].name@));
                let k = choose|k: int|
                    0 <= k < marked_entities(front).len() && marked_entities(front)[k] == entity;
                assert(marked_entities(nodes)[k] == entity);
            }
        }
    }
}

/// The order in which the nodes are seen does not matter: two scans that see
/// the same nodes tag the same entities.
pub proof fn lemma_marked_whatever_the_order(a: Seq<NamedNode>, b: Seq<NamedNode>, entity: u64)
    requires
        forall|n: NamedNode| a.contains(n) <==> b.contains(n),
    ensures
        marked_entities(a).contains(entity) <==> marked_entities(b).contains(entity),
{
    lemma_marked_exactly_matching(a, entity);
    lemma_marked_exactly_matching(b, entity);
    if marked_entities(a).contains(entity) {
        let i = choose|i: int|
            0 <= i < a.len() && #[trigger] a[i].entity == entity && is_target(a[i].name@);
        assert(a.contains(a[i]));
        let j = choose|j: int| 0 <= j < b.len() && b[j] == a[i];
        assert(b[j].entity == entity && is_target(b[j].name@));
    }
    if marked_entities(b).contains(entity) {
        let i = choose|i: int|
            0 <= i < b.len() && #[trigger] b[i].entity == entity && is_target(b[i].name@);
        assert(b.contains(b[i]));
        let j = choose|j: int| 0 <= j < a.len() && a[j] == b[i];
        assert(a[j].entity == entity && is_target(a[j].name@));
    }
}

} // verus!
