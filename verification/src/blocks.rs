//! The data model: blocks, the labeled parent-child links that file them
//! under one another, and an in-memory snapshot of the store that the
//! request layer hands to the core for one operation.

use vstd::prelude::*;

verus! {

/// A node of the content hierarchy: a type tag, an owner, a visibility
/// flag and the per-tier permission sets (small lists of user ids).
#[derive(Debug)]
pub struct Block {
    pub id: i64,
    pub block_type: String,
    pub owner_id: i32,
    pub public: bool,
    pub perm_full: Vec<i32>,
    pub perm_edit: Vec<i32>,
    pub perm_view: Vec<i32>,
    pub stars: Vec<i32>,
    pub notif_enabled: Vec<i32>,
}

/// Mathematical image of a [`Block`]: strings as character sequences and
/// id lists as sequences.
pub ghost struct BlockView {
    pub id: i64,
    pub block_type: Seq<char>,
    pub owner_id: i32,
    pub public: bool,
    pub perm_full: Seq<i32>,
    pub perm_edit: Seq<i32>,
    pub perm_view: Seq<i32>,
    pub stars: Seq<i32>,
    pub notif_enabled: Seq<i32>,
}

impl View for Block {
    type V = BlockView;

    open spec fn view(&self) -> BlockView {
        BlockView {
            id: self.id,
            block_type: self.block_type@,
            owner_id: self.owner_id,
            public: self.public,
            perm_full: self.perm_full@,
            perm_edit: self.perm_edit@,
            perm_view: self.perm_view@,
            stars: self.stars@,
            notif_enabled: self.notif_enabled@,
        }
    }
}

/// A labeled, ordered "filed under" link: the block `value_id` is filed
/// under the block `parent_id` in the slot `property_name`.
pub struct Property {
    pub id: i64,
    pub parent_id: i64,
    pub value_id: i64,
    pub property_name: String,
    pub order: i64,
}

/// Mathematical image of a [`Property`].
pub ghost struct PropertyView {
    pub id: i64,
    pub parent_id: i64,
    pub value_id: i64,
    pub property_name: Seq<char>,
    pub order: i64,
}

impl View for Property {
    type V = PropertyView;

    open spec fn view(&self) -> PropertyView {
        PropertyView {
            id: self.id,
            parent_id: self.parent_id,
            value_id: self.value_id,
            property_name: self.property_name@,
            order: self.order,
        }
    }
}

/// A snapshot of the rows an operation may touch, in the store's natural
/// return order. The store guarantees neither tree shape nor acyclicity,
/// and a link may name a parent that is absent from the snapshot.
pub struct Store {
    pub blocks: Vec<Block>,
    pub properties: Vec<Property>,
}

/// Mathematical image of a [`Store`].
pub ghost struct StoreView {
    pub blocks: Seq<BlockView>,
    pub properties: Seq<PropertyView>,
}

impl View for Store {
    type V = StoreView;

    open spec fn view(&self) -> StoreView {
        StoreView {
            blocks: self.blocks@.map_values(|b: Block| b@),
            properties: self.properties@.map_values(|p: Property| p@),
        }
    }
}

/// Request-scoped data the core reads: the store snapshot and the caller,
/// if a token already validated to one.
pub struct Context {
    pub store: Store,
    pub auth_user: Option<i32>,
}

/// Mathematical image of a [`Context`].
pub ghost struct ContextView {
    pub store: StoreView,
    pub auth_user: Option<i32>,
}

impl View for Context {
    type V = ContextView;

    open spec fn view(&self) -> ContextView {
        ContextView { store: self.store@, auth_user: self.auth_user }
    }
}

/// The first block of the sequence carrying the given id, if any.
pub open spec fn spec_block_by_id(blocks: Seq<BlockView>, id: i64) -> Option<BlockView>
    decreases blocks.len(),
{
    if blocks.len() == 0 {
        None
    } else if blocks[0].id == id {
        Some(blocks[0])
    } else {
        spec_block_by_id(blocks.drop_first(), id)
    }
}

/// A found block carries the id it was looked up by, and the store holds
/// a block of that id.
pub proof fn lemma_block_by_id_found(blocks: Seq<BlockView>, id: i64)
    ensures
        spec_block_by_id(blocks, id) matches Some(b) ==> b.id == id
            && blocks.map_values(|x: BlockView| x.id).contains(id),
    decreases blocks.len(),
{
    if blocks.len() > 0 {
        if blocks[0].id == id {
            assert(blocks.map_values(|x: BlockView| x.id)[0] == id);
        } else {
            lemma_block_by_id_found(blocks.drop_first(), id);
            if spec_block_by_id(blocks.drop_first(), id) matches Some(b) {
                let ids = blocks.drop_first().map_values(|x: BlockView| x.id);
                let k = choose|k: int| 0 <= k < ids.len() && ids[k] == id;
                assert(blocks.map_values(|x: BlockView| x.id)[k + 1] == id);
            }
        }
    }
}

impl Store {
    /// Looks a block up by id, as the store's `get_block` query does.
    pub fn block_by_id(&self, id: i64) -> (r: Option<&Block>)
        ensures
            match r {
                Some(b) => spec_block_by_id(self@.blocks, id) == Some(b@),
                None => spec_block_by_id(self@.blocks, id) is None,
            },
    {
        let n = self.blocks.len();
        let mut i: usize = 0;
        proof {
            assert(self@.blocks.skip(0) =~= self@.blocks);
        }
        while i < n
            invariant
                i <= n,
                n == self.blocks.len(),
                spec_block_by_id(self@.blocks, id) == spec_block_by_id(self@.blocks.skip(i as int), id),
            decreases n - i,
        {
            proof {
                assert(self@.blocks.skip(i as int)[0] == self.blocks@[i as int]@);
                assert(self@.blocks.skip(i as int).drop_first() =~= self@.blocks.skip(i + 1));
            }
            if self.blocks[i].id == id {
                return Some(&self.blocks[i]);
            }
            i = i + 1;
        }
        proof {
            assert(self@.blocks.skip(n as int) =~= Seq::<BlockView>::empty());
        }
        None
    }
}

} // verus!
