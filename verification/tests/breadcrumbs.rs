use loop_core::blocks::{Block, BlockView, Context, ContextView, Property, Store};
use loop_core::breadcrumb::gen_breadcrumb;
use loop_core::delegation::{BlockVariant, Registry};
use loop_core::display::{CreationObject, DisplayComponent, DisplayObject, Icon, TextComponent};
use loop_core::errors::{LoopError, LoopErrorView};
use vstd::seq::Seq;

struct NamesById;

impl BlockVariant for NamesById {
    // The ghost items of the trait never run; a test implementation only
    // has to fill their slots.
    fn name_ok(&self, _: ContextView, _: BlockView) -> bool {
        unreachable!()
    }

    fn name_of(&self, _: ContextView, _: BlockView) -> Seq<char> {
        unreachable!()
    }

    fn name_err(&self, _: ContextView, _: BlockView) -> LoopErrorView {
        unreachable!()
    }

    fn create_post(&self, _: ContextView, _: Seq<char>, _: i32, _: Result<Block, LoopError>) -> bool {
        unreachable!()
    }

    fn page_display_post(
        &self,
        _: ContextView,
        _: BlockView,
        _: Result<DisplayObject, LoopError>,
    ) -> bool {
        unreachable!()
    }

    fn embed_display_post(&self, _: ContextView, _: BlockView, _: DisplayComponent) -> bool {
        unreachable!()
    }

    fn create_display_post(
        &self,
        _: ContextView,
        _: i32,
        _: Result<CreationObject, LoopError>,
    ) -> bool {
        unreachable!()
    }

    fn method_post(
        &self,
        _: ContextView,
        _: Seq<char>,
        _: i64,
        _: Seq<char>,
        _: Result<Block, LoopError>,
    ) -> bool {
        unreachable!()
    }

    fn visibility_post(&self, _: ContextView, _: i64, _: bool, _: Result<(), LoopError>) -> bool {
        unreachable!()
    }

    fn perm_update_post(
        &self,
        _: ContextView,
        _: i64,
        _: Seq<i32>,
        _: Seq<i32>,
        _: Seq<i32>,
        _: Result<(), LoopError>,
    ) -> bool {
        unreachable!()
    }

    fn icon_spec(&self) -> Icon {
        unreachable!()
    }

    fn create(&self, _input: String, _context: &Context, _user_id: i32) -> Result<Block, LoopError> {
        Err(LoopError::GenericError)
    }

    fn page_display(&self, _block: &Block, _context: &Context) -> Result<DisplayObject, LoopError> {
        Err(LoopError::GenericError)
    }

    fn embed_display(&self, _block: &Block, _context: &Context) -> DisplayComponent {
        DisplayComponent::Text(TextComponent::new(String::new()))
    }

    fn create_display(&self, _context: &Context, _user_id: i32) -> Result<CreationObject, LoopError> {
        Err(LoopError::GenericError)
    }

    fn block_name(&self, block: &Block, _context: &Context) -> Result<String, LoopError> {
        match block.id {
            1 => Ok("Home".to_string()),
            2 => Ok("Notes".to_string()),
            3 => Ok("Today".to_string()),
            _ => Ok(format!("Block {}", block.id)),
        }
    }

    fn method_delegate(
        &self,
        _context: &Context,
        _name: String,
        _block_id: i64,
        _args: String,
    ) -> Result<Block, LoopError> {
        Err(LoopError::GenericError)
    }

    fn visibility_update(
        &self,
        _context: &Context,
        _block_id: i64,
        _public: bool,
    ) -> Result<(), LoopError> {
        Ok(())
    }

    fn general_perm_update(
        &self,
        _context: &Context,
        _block_id: i64,
        _perm_full: Vec<i32>,
        _perm_edit: Vec<i32>,
        _perm_view: Vec<i32>,
    ) -> Result<(), LoopError> {
        Ok(())
    }

    fn icon(&self) -> Icon {
        Icon::Folder
    }
}

fn registry() -> Registry<NamesById> {
    Registry {
        data: NamesById,
        text: NamesById,
        group: NamesById,
        document: NamesById,
        habit: NamesById,
        task: NamesById,
    }
}

fn block(id: i64, block_type: &str) -> Block {
    Block {
        id,
        block_type: block_type.to_string(),
        owner_id: 1,
        public: false,
        perm_full: vec![],
        perm_edit: vec![],
        perm_view: vec![],
        stars: vec![],
        notif_enabled: vec![],
    }
}

fn edge(id: i64, parent_id: i64, value_id: i64, property_name: &str) -> Property {
    Property {
        id,
        parent_id,
        value_id,
        property_name: property_name.to_string(),
        order: 0,
    }
}

fn context(blocks: Vec<Block>, properties: Vec<Property>) -> Context {
    Context {
        store: Store { blocks, properties },
        auth_user: None,
    }
}

#[test]
fn lone_block_single_crumb() {
    let ctx = context(vec![block(7, "text")], vec![]);
    let leaf = block(7, "text");
    let crumbs = gen_breadcrumb(&registry(), &ctx, &leaf).unwrap();
    assert_eq!(crumbs.len(), 1);
    assert_eq!(crumbs[0].block_id, 7);
    assert_eq!(crumbs[0].name, "Block 7");
}

#[test]
fn group_chain_root_first() {
    let ctx = context(
        vec![block(1, "group"), block(2, "text"), block(3, "text")],
        vec![edge(10, 2, 3, "Today"), edge(11, 1, 2, "Filed")],
    );
    let leaf = block(3, "text");
    let crumbs = gen_breadcrumb(&registry(), &ctx, &leaf).unwrap();
    assert_eq!(crumbs.len(), 3);
    assert_eq!(crumbs[0].block_id, 1);
    assert_eq!(crumbs[0].name, "Home");
    assert_eq!(crumbs[1].block_id, 2);
    assert_eq!(crumbs[1].name, "Notes");
    assert_eq!(crumbs[2].block_id, 3);
    assert_eq!(crumbs[2].name, "Today");
}

#[test]
fn cycle_edge_changes_nothing_and_terminates() {
    let ctx = context(
        vec![block(1, "group"), block(2, "text"), block(3, "text")],
        vec![
            edge(10, 2, 3, "Today"),
            edge(11, 1, 2, "Filed"),
            edge(12, 3, 1, "Backlink"),
        ],
    );
    let leaf = block(3, "text");
    let crumbs = gen_breadcrumb(&registry(), &ctx, &leaf).unwrap();
    assert_eq!(crumbs.len(), 3);
    assert_eq!(crumbs[0].block_id, 1);
    assert_eq!(crumbs[0].name, "Home");
    assert_eq!(crumbs[1].block_id, 2);
    assert_eq!(crumbs[1].name, "Notes");
    assert_eq!(crumbs[2].block_id, 3);
    assert_eq!(crumbs[2].name, "Today");
}

#[test]
fn self_loop_terminates() {
    let ctx = context(
        vec![block(4, "text")],
        vec![edge(10, 4, 4, "Self")],
    );
    let leaf = block(4, "text");
    let crumbs = gen_breadcrumb(&registry(), &ctx, &leaf).unwrap();
    // The self link is consumed once, then excluded by the cycle guard;
    // the second visit of block 4 is the top of the chain.
    assert_eq!(crumbs.len(), 2);
    assert_eq!(crumbs[0].block_id, 4);
    assert_eq!(crumbs[0].name, "Block 4");
    assert_eq!(crumbs[1].block_id, 4);
    assert_eq!(crumbs[1].name, "Self");
}

#[test]
fn dangling_link_truncates_without_error() {
    let ctx = context(vec![block(3, "text")], vec![edge(10, 99, 3, "Today")]);
    let leaf = block(3, "text");
    let crumbs = gen_breadcrumb(&registry(), &ctx, &leaf).unwrap();
    assert_eq!(crumbs.len(), 0);
}

#[test]
fn dangling_link_keeps_prefix() {
    let ctx = context(
        vec![block(2, "text"), block(3, "text")],
        vec![edge(10, 2, 3, "Today"), edge(11, 99, 2, "Gone")],
    );
    let leaf = block(3, "text");
    let crumbs = gen_breadcrumb(&registry(), &ctx, &leaf).unwrap();
    assert_eq!(crumbs.len(), 1);
    assert_eq!(crumbs[0].block_id, 3);
    assert_eq!(crumbs[0].name, "Today");
}

#[test]
fn first_link_in_store_order_wins() {
    // Two qualifying incoming links: the store's first one decides.
    let ctx = context(
        vec![block(20, "text"), block(50, "text"), block(3, "text")],
        vec![edge(10, 20, 3, "First"), edge(11, 50, 3, "Second")],
    );
    let leaf = block(3, "text");
    let crumbs = gen_breadcrumb(&registry(), &ctx, &leaf).unwrap();
    assert_eq!(crumbs.len(), 2);
    assert_eq!(crumbs[0].block_id, 20);
    assert_eq!(crumbs[0].name, "Block 20");
    assert_eq!(crumbs[1].block_id, 3);
    assert_eq!(crumbs[1].name, "First");
}

#[test]
fn unresolved_type_under_group_fails_naming() {
    // A group parent labels the child by its own delegated name, so an
    // unknown child type surfaces mid-walk.
    let ctx = context(
        vec![block(1, "group"), block(3, "mystery")],
        vec![edge(10, 1, 3, "Filed")],
    );
    let leaf = block(3, "mystery");
    let err = gen_breadcrumb(&registry(), &ctx, &leaf).unwrap_err();
    assert_eq!(
        err.message(),
        "[bte] A block type called 'mystery' was not found."
    );
}

#[test]
fn unresolved_type_on_top_block_fails_naming() {
    // The top block's delegated name resolves through the registry; an
    // unknown tag propagates type-not-found.
    let ctx = context(vec![block(8, "mystery")], vec![]);
    let leaf = block(8, "mystery");
    let err = gen_breadcrumb(&registry(), &ctx, &leaf).unwrap_err();
    assert_eq!(
        err.message(),
        "[bte] A block type called 'mystery' was not found."
    );
}
