use loop_core::blocks::Block;
use loop_core::menu::MenuComponent;
use loop_core::permissions::{has_perm_level, PermLevel};

fn block_with_perms(
    owner_id: i32,
    public: bool,
    perm_full: Vec<i32>,
    perm_edit: Vec<i32>,
    perm_view: Vec<i32>,
) -> Block {
    Block {
        id: 42,
        block_type: "text".to_string(),
        owner_id,
        public,
        perm_full,
        perm_edit,
        perm_view,
        stars: vec![5, 9],
        notif_enabled: vec![9],
    }
}

#[test]
fn owner_holds_every_level() {
    let b = block_with_perms(1, false, vec![], vec![], vec![]);
    assert!(has_perm_level(1, &b, PermLevel::View));
    assert!(has_perm_level(1, &b, PermLevel::Edit));
    assert!(has_perm_level(1, &b, PermLevel::Full));
    assert!(has_perm_level(1, &b, PermLevel::Owner));
}

#[test]
fn public_grants_view_only() {
    let b = block_with_perms(1, true, vec![], vec![], vec![]);
    assert!(has_perm_level(2, &b, PermLevel::View));
    assert!(!has_perm_level(2, &b, PermLevel::Edit));
    assert!(!has_perm_level(2, &b, PermLevel::Full));
    assert!(!has_perm_level(2, &b, PermLevel::Owner));
}

#[test]
fn view_member_cannot_edit_or_full() {
    let b = block_with_perms(1, false, vec![], vec![], vec![3]);
    assert!(has_perm_level(3, &b, PermLevel::View));
    assert!(!has_perm_level(3, &b, PermLevel::Edit));
    assert!(!has_perm_level(3, &b, PermLevel::Full));
    assert!(!has_perm_level(3, &b, PermLevel::Owner));
}

#[test]
fn stricter_sets_imply_weaker_levels() {
    let b = block_with_perms(1, false, vec![4], vec![5], vec![]);
    assert!(has_perm_level(4, &b, PermLevel::View));
    assert!(has_perm_level(4, &b, PermLevel::Edit));
    assert!(has_perm_level(4, &b, PermLevel::Full));
    assert!(!has_perm_level(4, &b, PermLevel::Owner));
    assert!(has_perm_level(5, &b, PermLevel::View));
    assert!(has_perm_level(5, &b, PermLevel::Edit));
    assert!(!has_perm_level(5, &b, PermLevel::Full));
}

#[test]
fn stranger_holds_nothing_on_private_block() {
    let b = block_with_perms(1, false, vec![4], vec![5], vec![3]);
    assert!(!has_perm_level(8, &b, PermLevel::View));
    assert!(!has_perm_level(8, &b, PermLevel::Edit));
    assert!(!has_perm_level(8, &b, PermLevel::Full));
    assert!(!has_perm_level(8, &b, PermLevel::Owner));
}

#[test]
fn menu_empty_shell() {
    let menu = MenuComponent::new(9);
    assert_eq!(menu.block_id, 9);
    assert!(menu.star_button.is_none());
    assert!(menu.notifications_enabled.is_none());
    assert!(menu.delete.is_none());
    assert!(menu.permissions.is_none());
}

#[test]
fn view_only_menu_hides_public_flag_and_delete() {
    // The permission-set sizes are gated like the public flag: a caller
    // who holds View but not Full sees neither.
    let b = block_with_perms(1, true, vec![], vec![], vec![9]);
    let menu = MenuComponent::load_from_block(&b, 9);
    assert_eq!(menu.block_id, 42);
    let star = menu.star_button.unwrap();
    assert_eq!(star.count, 2);
    assert!(star.starred);
    assert_eq!(menu.notifications_enabled, Some(true));
    assert!(menu.permissions.is_none());
    assert!(menu.delete.is_none());
}

#[test]
fn owner_menu_shows_everything() {
    let b = block_with_perms(1, false, vec![4], vec![5, 6], vec![3]);
    let menu = MenuComponent::load_from_block(&b, 1);
    let star = menu.star_button.unwrap();
    assert_eq!(star.count, 2);
    assert!(!star.starred);
    assert_eq!(menu.notifications_enabled, Some(false));
    let perms = menu.permissions.unwrap();
    assert_eq!(perms.full, 1);
    assert_eq!(perms.edit, 2);
    assert_eq!(perms.view, 1);
    assert_eq!(perms.public, Some(false));
    assert_eq!(menu.delete, Some(true));
}

#[test]
fn stranger_menu_shows_nothing() {
    let b = block_with_perms(1, false, vec![], vec![], vec![]);
    let menu = MenuComponent::load_from_block(&b, 8);
    assert!(menu.star_button.is_none());
    assert!(menu.notifications_enabled.is_none());
    assert!(menu.permissions.is_none());
    assert!(menu.delete.is_none());
}

#[test]
fn full_member_sees_public_flag_but_no_delete() {
    let b = block_with_perms(1, true, vec![4], vec![], vec![]);
    let menu = MenuComponent::load_from_block(&b, 4);
    let perms = menu.permissions.unwrap();
    assert_eq!(perms.public, Some(true));
    assert!(menu.delete.is_none());
}
