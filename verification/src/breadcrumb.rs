//! The hierarchy resolver: reconstructs the root-first breadcrumb of a
//! block by walking parent links upward. The walk ignores links whose
//! parent was already visited (the cycle guard), stops silently at a link
//! whose parent is absent (a dangling link truncates the result), and
//! labels each step by the filing slot — or by the block's own delegated
//! name when the parent is the transparent Group container.

use vstd::prelude::*;
use vstd::seq_lib::seq_to_set_is_finite;
use vstd::set::{
    axiom_set_difference_finite, axiom_set_remove_finite, axiom_set_remove_len, group_set_axioms,
};

use crate::blocks::{
    lemma_block_by_id_found, spec_block_by_id, Block, BlockView, Context, ContextView, Property,
    PropertyView, StoreView,
};
use crate::delegation::{delegate_block_name, spec_delegated_name, BlockVariant, Registry};
use crate::errors::{LoopError, LoopErrorView};
use crate::strings::str_eq;
use crate::types::group_tag;

verus! {

/// One step of a breadcrumb: a block and the name shown for it.
#[derive(Clone, Debug)]
pub struct BreadCrumb {
    pub block_id: i64,
    pub name: String,
}

/// Mathematical image of a [`BreadCrumb`].
pub ghost struct BreadCrumbView {
    pub block_id: i64,
    pub name: Seq<char>,
}

impl View for BreadCrumb {
    type V = BreadCrumbView;

    open spec fn view(&self) -> BreadCrumbView {
        BreadCrumbView { block_id: self.block_id, name: self.name@ }
    }
}

/// The image of a crumb list.
pub open spec fn crumbs_view(crumbs: Seq<BreadCrumb>) -> Seq<BreadCrumbView> {
    crumbs.map_values(|c: BreadCrumb| c@)
}

/// Whether a link files `child` under a parent that is not yet visited.
pub open spec fn edge_qualifies(edge: PropertyView, child: i64, visited: Seq<i64>) -> bool {
    edge.value_id == child && !visited.contains(edge.parent_id)
}

/// The qualifying incoming links of `child`, in the store's order.
pub open spec fn spec_qualifying(
    properties: Seq<PropertyView>,
    child: i64,
    visited: Seq<i64>,
) -> Seq<PropertyView>
    decreases properties.len(),
{
    if properties.len() == 0 {
        Seq::empty()
    } else {
        let rest = spec_qualifying(properties.drop_first(), child, visited);
        if edge_qualifies(properties[0], child, visited) {
            seq![properties[0]] + rest
        } else {
            rest
        }
    }
}

/// Every qualifying link qualifies.
pub proof fn lemma_qualifying_qualifies(
    properties: Seq<PropertyView>,
    child: i64,
    visited: Seq<i64>,
)
    ensures
        forall|k: int|
            0 <= k < spec_qualifying(properties, child, visited).len() ==> edge_qualifies(
                #[trigger] spec_qualifying(properties, child, visited)[k],
                child,
                visited,
            ),
    decreases properties.len(),
{
    if properties.len() > 0 {
        lemma_qualifying_qualifies(properties.drop_first(), child, visited);
        let rest = spec_qualifying(properties.drop_first(), child, visited);
        let q = spec_qualifying(properties, child, visited);
        if edge_qualifies(properties[0], child, visited) {
            assert forall|k: int| 0 <= k < q.len() implies edge_qualifies(
                q[k],
                child,
                visited,
            ) by {
                if k == 0 {
                    assert(q[k] == properties[0]);
                } else {
                    assert(q[k] == rest[k - 1]);
                }
            }
        }
    }
}

/// A link whose parent the walk has already visited — a cycle-closing
/// link — never changes which links qualify, wherever the store returns
/// it.
pub proof fn lemma_visited_link_ignored(
    properties: Seq<PropertyView>,
    extra: PropertyView,
    at: int,
    child: i64,
    visited: Seq<i64>,
)
    requires
        0 <= at <= properties.len(),
        !edge_qualifies(extra, child, visited),
    ensures
        spec_qualifying(properties.insert(at, extra), child, visited) == spec_qualifying(
            properties,
            child,
            visited,
        ),
    decreases properties.len(),
{
    let extended = properties.insert(at, extra);
    if at == 0 {
        assert(extended.drop_first() =~= properties);
    } else {
        assert(extended[0] == properties[0]);
        assert(extended.drop_first() =~= properties.drop_first().insert(at - 1, extra));
        lemma_visited_link_ignored(properties.drop_first(), extra, at - 1, child, visited);
    }
}

/// Pushing an id onto the visited list inserts it into the visited set.
proof fn lemma_push_to_set(ids: Seq<i64>, x: i64)
    ensures
        ids.push(x).to_set() =~= ids.to_set().insert(x),
{
    broadcast use group_set_axioms;

    assert forall|y: i64| #[trigger] ids.push(x).contains(y) <==> ids.contains(y) || y == x by {
        if ids.contains(y) {
            let j = choose|j: int| 0 <= j < ids.len() && ids[j] == y;
            assert(ids.push(x)[j] == y);
        }
        if y == x {
            assert(ids.push(x)[ids.len() as int] == y);
        }
        if ids.push(x).contains(y) {
            let j = choose|j: int| 0 <= j < ids.push(x).len() && ids.push(x)[j] == y;
            if j < ids.len() {
                assert(ids[j] == y);
            }
        }
    }
}

/// The ids of the blocks the store holds.
pub open spec fn store_block_ids(store: StoreView) -> Set<i64> {
    store.blocks.map_values(|b: BlockView| b.id).to_set()
}

/// How many blocks of the store the walk has not visited yet.
pub open spec fn unvisited_count(store: StoreView, visited: Seq<i64>) -> nat {
    store_block_ids(store).difference(visited.to_set()).len()
}

/// Zero when the walk stands on a stored, unvisited block — the state in
/// which the next step must shrink the unvisited count.
pub open spec fn pending_progress(store: StoreView, id: i64, visited: Seq<i64>) -> int {
    if store_block_ids(store).contains(id) && !visited.contains(id) {
        0
    } else {
        1
    }
}

/// One upward step of the walk strictly shrinks the measure
/// `(unvisited_count, pending_progress)` lexicographically.
pub proof fn lemma_walk_measure(
    store: StoreView,
    block: BlockView,
    parent: BlockView,
    visited: Seq<i64>,
)
    requires
        spec_qualifying(store.properties, block.id, visited).len() > 0,
        spec_block_by_id(
            store.blocks,
            spec_qualifying(store.properties, block.id, visited)[0].parent_id,
        ) == Some(parent),
    ensures
        unvisited_count(store, visited.push(block.id)) <= unvisited_count(store, visited),
        pending_progress(store, block.id, visited) == 0 ==> unvisited_count(
            store,
            visited.push(block.id),
        ) < unvisited_count(store, visited),
        pending_progress(store, block.id, visited) == 1 ==> unvisited_count(
            store,
            visited.push(block.id),
        ) == unvisited_count(store, visited) && pending_progress(
            store,
            parent.id,
            visited.push(block.id),
        ) == 0,
{
    broadcast use group_set_axioms;
    broadcast use seq_to_set_is_finite;

    let ids = store_block_ids(store);
    let edge = spec_qualifying(store.properties, block.id, visited)[0];
    lemma_qualifying_qualifies(store.properties, block.id, visited);
    lemma_block_by_id_found(store.blocks, edge.parent_id);
    assert(parent.id == edge.parent_id);
    assert(ids.contains(parent.id));
    assert(!visited.contains(parent.id));

    let before = ids.difference(visited.to_set());
    let after = ids.difference(visited.push(block.id).to_set());
    lemma_push_to_set(visited, block.id);
    assert(after =~= before.remove(block.id));
    axiom_set_difference_finite(ids, visited.to_set());
    axiom_set_remove_len(before, block.id);
    if pending_progress(store, block.id, visited) == 0 {
        assert(before.contains(block.id));
    } else {
        assert(!before.contains(block.id));
        assert(after =~= before);
        assert(parent.id != block.id);
        assert(!visited.push(block.id).contains(parent.id));
    }
}

/// What the walk upward from `block` yields, leaf first, given the links
/// already consumed: the crumbs this suffix of the walk contributes, or
/// the error that aborts the whole resolution.
pub open spec fn spec_walk<V: BlockVariant>(
    registry: Registry<V>,
    context: ContextView,
    block: BlockView,
    visited: Seq<i64>,
) -> Result<Seq<BreadCrumbView>, LoopErrorView>
    decreases
            unvisited_count(context.store, visited),
            pending_progress(context.store, block.id, visited),
{
    let q = spec_qualifying(context.store.properties, block.id, visited);
    if q.len() == 0 {
        match spec_delegated_name(registry, context, block.block_type, block) {
            Ok(name) => Ok(seq![BreadCrumbView { block_id: block.id, name }]),
            Err(e) => Err(e),
        }
    } else {
        match spec_block_by_id(context.store.blocks, q[0].parent_id) {
            None => Ok(Seq::empty()),
            Some(parent) => {
                let label_res = if parent.block_type == group_tag() {
                    spec_delegated_name(registry, context, block.block_type, block)
                } else {
                    Ok(q[0].property_name)
                };
                match label_res {
                    Err(e) => Err(e),
                    Ok(label) => {
                        proof {
                            lemma_walk_measure(context.store, block, parent, visited);
                        }
                        match spec_walk(registry, context, parent, visited.push(block.id)) {
                            Ok(rest) => Ok(
                                seq![BreadCrumbView { block_id: block.id, name: label }] + rest,
                            ),
                            Err(e) => Err(e),
                        }
                    },
                }
            },
        }
    }
}

/// What resolving the breadcrumb of `block` yields: the walk's crumbs in
/// root-first order, or the error that aborted it.
pub open spec fn spec_breadcrumb<V: BlockVariant>(
    registry: Registry<V>,
    context: ContextView,
    block: BlockView,
) -> Result<Seq<BreadCrumbView>, LoopErrorView> {
    match spec_walk(registry, context, block, Seq::empty()) {
        Ok(crumbs) => Ok(crumbs.reverse()),
        Err(e) => Err(e),
    }
}

/// Whether the list of ids holds `x`.
fn id_list_contains(ids: &Vec<i64>, x: i64) -> (r: bool)
    ensures
        r == ids@.contains(x),
{
    let n = ids.len();
    let mut i: usize = 0;
    while i < n
        invariant
            i <= n,
            n == ids.len(),
            forall|k: int| 0 <= k < i ==> ids@[k] != x,
        decreases n - i,
    {
        if ids[i] == x {
            return true;
        }
        i = i + 1;
    }
    false
}

/// The first qualifying incoming link of `child` under the store's
/// natural order, if any qualifies.
fn first_qualifying<'a>(properties: &'a Vec<Property>, child: i64, visited: &Vec<i64>) -> (r:
    Option<&'a Property>)
    ensures
        ({
            let q = spec_qualifying(
                properties@.map_values(|p: Property| p@),
                child,
                visited@,
            );
            match r {
                Some(edge) => q.len() > 0 && edge@ == q[0],
                None => q.len() == 0,
            }
        }),
{
    let ghost props = properties@.map_values(|p: Property| p@);
    let n = properties.len();
    let mut i: usize = 0;
    proof {
        assert(props.skip(0) =~= props);
    }
    while i < n
        invariant
            i <= n,
            n == properties.len(),
            props == properties@.map_values(|p: Property| p@),
            spec_qualifying(props, child, visited@) == spec_qualifying(
                props.skip(i as int),
                child,
                visited@,
            ),
        decreases n - i,
    {
        proof {
            assert(props.skip(i as int)[0] == props[i as int]);
            assert(props.skip(i as int).drop_first() =~= props.skip(i + 1));
        }
        let qualifies = properties[i].value_id == child && !id_list_contains(
            visited,
            properties[i].parent_id,
        );
        if qualifies {
            return Some(&properties[i]);
        }
        i = i + 1;
    }
    proof {
        assert(props.skip(n as int) =~= Seq::<PropertyView>::empty());
    }
    None
}

/// Reverses a crumb list into root-first order.
fn reversed_crumbs(crumbs: Vec<BreadCrumb>) -> (r: Vec<BreadCrumb>)
    ensures
        crumbs_view(r@) == crumbs_view(crumbs@).reverse(),
{
    let n = crumbs.len();
    let mut r: Vec<BreadCrumb> = Vec::new();
    let mut i: usize = n;
    while i > 0
        invariant
            i <= n,
            n == crumbs.len(),
            r@.len() == n - i,
            forall|k: int|
                0 <= k < r@.len() ==> #[trigger] r@[k]@ == crumbs@[n - 1 - k]@,
        decreases i,
    {
        i = i - 1;
        let c = &crumbs[i];
        r.push(BreadCrumb { block_id: c.block_id, name: c.name.clone() });
    }
    proof {
        assert(crumbs_view(r@) =~= crumbs_view(crumbs@).reverse());
    }
    r
}

/// Resolves the root-first breadcrumb of `block`: exactly what
/// `spec_breadcrumb` gives. A cycle among the links cannot make the walk
/// diverge, and a dangling link ends it early without an error; only a
/// failed delegated naming aborts it.
#[verifier::loop_isolation(false)]
pub fn gen_breadcrumb<V: BlockVariant>(
    registry: &Registry<V>,
    context: &Context,
    block: &Block,
) -> (r: Result<Vec<BreadCrumb>, LoopError>)
    ensures
        match r {
            Ok(crumbs) => spec_breadcrumb(*registry, context@, block@) matches Ok(s)
                && crumbs_view(crumbs@) == s,
            Err(e) => spec_breadcrumb(*registry, context@, block@) matches Err(ev) && ev == e@,
        },
{
    let mut crumbs: Vec<BreadCrumb> = Vec::new();
    let mut visited: Vec<i64> = Vec::new();
    let mut current: &Block = block;
    loop
        invariant
            ({
                let walk0 = spec_walk(*registry, context@, block@, Seq::empty());
                match spec_walk(*registry, context@, current@, visited@) {
                    Ok(rest) => walk0 matches Ok(full) && full == crumbs_view(crumbs@) + rest,
                    Err(e) => walk0 matches Err(e0) && e0 == e,
                }
            }),
        decreases
                unvisited_count(context@.store, visited@),
                pending_progress(context@.store, current@.id, visited@),
    {
        let ghost walk_here = spec_walk(*registry, context@, current@, visited@);
        match first_qualifying(&context.store.properties, current.id, &visited) {
            None => {
                match delegate_block_name(registry, context, current.block_type.as_str(), current) {
                    Ok(name) => {
                        proof {
                            assert(walk_here == Ok::<_, LoopErrorView>(
                                seq![BreadCrumbView { block_id: current@.id, name: name@ }],
                            ));
                        }
                        crumbs.push(BreadCrumb { block_id: current.id, name });
                        proof {
                            assert(crumbs_view(crumbs@) =~= spec_walk(
                                *registry,
                                context@,
                                block@,
                                Seq::empty(),
                            )->Ok_0);
                        }
                        return Ok(reversed_crumbs(crumbs));
                    },
                    Err(e) => {
                        return Err(e);
                    },
                }
            },
            Some(edge) => {
                match context.store.block_by_id(edge.parent_id) {
                    None => {
                        proof {
                            assert(walk_here == Ok::<_, LoopErrorView>(
                                Seq::<BreadCrumbView>::empty(),
                            ));
                            assert(crumbs_view(crumbs@) + Seq::<BreadCrumbView>::empty()
                                =~= crumbs_view(crumbs@));
                        }
                        return Ok(reversed_crumbs(crumbs));
                    },
                    Some(parent) => {
                        let is_group = str_eq(parent.block_type.as_str(), "group");
                        let label = if is_group {
                            match delegate_block_name(
                                registry,
                                context,
                                current.block_type.as_str(),
                                current,
                            ) {
                                Ok(name) => name,
                                Err(e) => {
                                    return Err(e);
                                },
                            }
                        } else {
                            edge.property_name.clone()
                        };
                        proof {
                            lemma_walk_measure(context@.store, current@, parent@, visited@);
                        }
                        let ghost old_crumbs = crumbs@;
                        crumbs.push(BreadCrumb { block_id: current.id, name: label });
                        visited.push(current.id);
                        proof {
                            let cv = BreadCrumbView { block_id: current@.id, name: label@ };
                            assert(crumbs_view(crumbs@) =~= crumbs_view(old_crumbs).push(cv));
                            match spec_walk(*registry, context@, parent@, visited@) {
                                Ok(rest) => {
                                    assert(crumbs_view(old_crumbs) + (seq![cv] + rest)
                                        =~= crumbs_view(crumbs@) + rest);
                                },
                                Err(_) => {},
                            }
                        }
                        current = parent;
                    },
                }
            },
        }
    }
}

/// A block with no qualifying incoming link yields the one-element
/// breadcrumb of its own delegated name — or, when its naming fails,
/// that failure unchanged.
pub proof fn lemma_no_incoming_link_single_crumb<V: BlockVariant>(
    registry: Registry<V>,
    context: ContextView,
    block: BlockView,
)
    requires
        spec_qualifying(context.store.properties, block.id, Seq::empty()).len() == 0,
    ensures
        spec_delegated_name(registry, context, block.block_type, block) matches Ok(name)
            ==> spec_breadcrumb(registry, context, block) == Ok::<_, LoopErrorView>(
            seq![BreadCrumbView { block_id: block.id, name }],
        ),
        spec_delegated_name(registry, context, block.block_type, block) matches Err(e)
            ==> spec_breadcrumb(registry, context, block) == Err::<Seq<BreadCrumbView>, _>(e),
{
    match spec_delegated_name(registry, context, block.block_type, block) {
        Ok(name) => {
            let crumb = BreadCrumbView { block_id: block.id, name };
            assert(seq![crumb].reverse() =~= seq![crumb]);
        },
        Err(_) => {},
    }
}

/// A dangling first link — a parent id that no stored block carries —
/// ends the walk at that point: no further crumbs and no error.
pub proof fn lemma_dangling_link_truncates<V: BlockVariant>(
    registry: Registry<V>,
    context: ContextView,
    block: BlockView,
    visited: Seq<i64>,
)
    requires
        spec_qualifying(context.store.properties, block.id, visited).len() > 0,
        spec_block_by_id(
            context.store.blocks,
            spec_qualifying(context.store.properties, block.id, visited)[0].parent_id,
        ) is None,
    ensures
        spec_walk(registry, context, block, visited) == Ok::<_, LoopErrorView>(
            Seq::<BreadCrumbView>::empty(),
        ),
{
    assert(Seq::<BreadCrumbView>::empty().reverse() =~= Seq::<BreadCrumbView>::empty());
}

} // verus!
