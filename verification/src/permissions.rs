//! The tiered permission evaluator: a pure check that a caller holds at
//! least a given access tier on a block.

use vstd::prelude::*;

use crate::blocks::{Block, BlockView};

verus! {

/// Access tiers, ordered View < Edit < Full < Owner.
#[derive(Clone, Copy, PartialEq, Eq, Structural, Debug)]
pub enum PermLevel {
    View,
    Edit,
    Full,
    Owner,
}

impl PermLevel {
    /// Numeric position of the tier in the View < Edit < Full < Owner order.
    pub open spec fn rank(self) -> int {
        match self {
            PermLevel::View => 0,
            PermLevel::Edit => 1,
            PermLevel::Full => 2,
            PermLevel::Owner => 3,
        }
    }
}

/// Whether `user_id` holds at least the tier `level` on `block`:
/// the owner holds every tier; membership in a permission set grants its
/// tier and every weaker one; a public block grants View, and only View.
pub open spec fn spec_has_level(user_id: i32, block: BlockView, level: PermLevel) -> bool {
    ||| user_id == block.owner_id
    ||| match level {
        PermLevel::View => block.public || block.perm_full.contains(user_id)
            || block.perm_edit.contains(user_id) || block.perm_view.contains(user_id),
        PermLevel::Edit => block.perm_full.contains(user_id) || block.perm_edit.contains(user_id),
        PermLevel::Full => block.perm_full.contains(user_id),
        PermLevel::Owner => false,
    }
}

/// Whether the list of user ids holds `x`.
pub fn contains_id(ids: &Vec<i32>, x: i32) -> (r: bool)
    ensures
        r == ids@.contains(x),
{
    let n = ids.len();
    let mut i: usize = 0;
    while i < n
        invariant
            i <= n,
            n == ids.len(),
            forall|k: int| 0 <= k < i ==> ids@[k] != x,
        decreases n - i,
    {
        if ids[i] == x {
            return true;
        }
        i = i + 1;
    }
    false
}

/// Evaluates `spec_has_level` on a block.
pub fn has_perm_level(user_id: i32, block: &Block, level: PermLevel) -> (r: bool)
    ensures
        r == spec_has_level(user_id, block@, level),
{
    if user_id == block.owner_id {
        return true;
    }
    match level {
        PermLevel::View => {
            block.public || contains_id(&block.perm_full, user_id)
                || contains_id(&block.perm_edit, user_id)
                || contains_id(&block.perm_view, user_id)
        },
        PermLevel::Edit => {
            contains_id(&block.perm_full, user_id) || contains_id(&block.perm_edit, user_id)
        },
        PermLevel::Full => contains_id(&block.perm_full, user_id),
        PermLevel::Owner => false,
    }
}

/// The owner of a block holds every tier on it, whatever the permission
/// sets and the public flag hold.
pub proof fn lemma_owner_has_every_level(block: BlockView, level: PermLevel)
    ensures
        spec_has_level(block.owner_id, block, level),
{
}

/// A public block grants View to every user, even one in no permission set.
pub proof fn lemma_public_grants_view(user_id: i32, block: BlockView)
    requires
        block.public,
    ensures
        spec_has_level(user_id, block, PermLevel::View),
{
}

/// A user who is not the owner and appears only in the View set holds
/// neither Edit nor Full.
pub proof fn lemma_view_only_cannot_mutate(user_id: i32, block: BlockView)
    requires
        user_id != block.owner_id,
        !block.perm_full.contains(user_id),
        !block.perm_edit.contains(user_id),
    ensures
        !spec_has_level(user_id, block, PermLevel::Edit),
        !spec_has_level(user_id, block, PermLevel::Full),
{
}

/// Holding a tier implies holding every weaker tier.
pub proof fn lemma_level_monotonic(user_id: i32, block: BlockView, stronger: PermLevel, weaker: PermLevel)
    requires
        weaker.rank() <= stronger.rank(),
        spec_has_level(user_id, block, stronger),
    ensures
        spec_has_level(user_id, block, weaker),
{
}

} // verus!
