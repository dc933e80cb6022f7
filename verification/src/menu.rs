//! The menu projection: a permission-gated, read-only summary of a block
//! for one caller. Display-only; it authorizes nothing.

use vstd::prelude::*;

use crate::blocks::{Block, BlockView};
use crate::permissions::{contains_id, has_perm_level, spec_has_level, PermLevel};

verus! {

/// Star state the caller may see: how many stars the block has and
/// whether the caller's own star is among them.
pub struct StarButton {
    pub starred: bool,
    pub count: usize,
}

/// Sizes of the permission sets (counts only, never member lists), and
/// the public flag where the caller may see it.
pub struct PermissionsList {
    pub full: usize,
    pub edit: usize,
    pub view: usize,
    pub public: Option<bool>,
}

/// The per-caller menu summary of one block.
pub struct MenuComponent {
    pub block_id: i64,
    pub star_button: Option<StarButton>,
    pub notifications_enabled: Option<bool>,
    pub delete: Option<bool>,
    pub permissions: Option<PermissionsList>,
}

/// What the menu for `block` shows to `user_id`: star and notification
/// state only with View; the public flag, and the permission-set sizes
/// alongside it (counts only, never member lists), only with Full; the
/// delete affordance only for the owner.
pub open spec fn spec_menu(block: BlockView, user_id: i32) -> MenuComponent {
    MenuComponent {
        block_id: block.id,
        star_button: if spec_has_level(user_id, block, PermLevel::View) {
            Some(
                StarButton {
                    starred: block.stars.contains(user_id),
                    count: block.stars.len() as usize,
                },
            )
        } else {
            None
        },
        notifications_enabled: if spec_has_level(user_id, block, PermLevel::View) {
            Some(block.notif_enabled.contains(user_id))
        } else {
            None
        },
        permissions: if spec_has_level(user_id, block, PermLevel::Full) {
            Some(
                PermissionsList {
                    full: block.perm_full.len() as usize,
                    edit: block.perm_edit.len() as usize,
                    view: block.perm_view.len() as usize,
                    public: Some(block.public),
                },
            )
        } else {
            None
        },
        delete: if spec_has_level(user_id, block, PermLevel::Owner) {
            Some(true)
        } else {
            None
        },
    }
}

impl MenuComponent {
    /// An empty menu for the block: nothing exposed yet.
    pub fn new(block_id: i64) -> (r: Self)
        ensures
            r.block_id == block_id,
            r.star_button is None,
            r.notifications_enabled is None,
            r.delete is None,
            r.permissions is None,
    {
        Self {
            block_id: block_id,
            notifications_enabled: None,
            delete: None,
            permissions: None,
            star_button: None,
        }
    }

    /// Assembles the menu summary of `block` as `user_id` may see it.
    pub fn load_from_block(block: &Block, user_id: i32) -> (r: Self)
        ensures
            r == spec_menu(block@, user_id),
    {
        let mut menu = MenuComponent::new(block.id);

        if has_perm_level(user_id, block, PermLevel::View) {
            menu.notifications_enabled = Some(contains_id(&block.notif_enabled, user_id));
            menu.star_button = Some(
                StarButton {
                    count: block.stars.len(),
                    starred: contains_id(&block.stars, user_id),
                },
            );
        }
        if has_perm_level(user_id, block, PermLevel::Full) {
            menu.permissions = Some(
                PermissionsList {
                    public: Some(block.public),
                    full: block.perm_full.len(),
                    edit: block.perm_edit.len(),
                    view: block.perm_view.len(),
                },
            );
        }
        if has_perm_level(user_id, block, PermLevel::Owner) {
            menu.delete = Some(true);
        }
        menu
    }
}

/// A caller who holds View but not Full and is not the owner sees
/// neither the public flag — nor the permission-set sizes gated with it
/// — nor a delete affordance, whatever the block's state.
pub proof fn lemma_view_only_menu_hides_mutation(block: BlockView, user_id: i32)
    requires
        !spec_has_level(user_id, block, PermLevel::Full),
        user_id != block.owner_id,
    ensures
        spec_menu(block, user_id).permissions is None,
        spec_menu(block, user_id).delete is None,
{
}

} // verus!
