//! The block type registry and delegation dispatcher: every generic
//! operation resolves the block's type tag to a variant and routes the
//! call to that variant's implementation. Resolving the `Invalid`
//! sentinel fails with the type-not-found error — except the two display
//! operations, which degrade to a valid display, and the icon lookup,
//! which yields none.

use vstd::prelude::*;

use crate::blocks::{Block, Context, ContextView, BlockView};
use crate::display::{
    CardComponent, CreationObject, DisplayComponent, DisplayObject, Icon, TextComponent,
    spec_is_error_card,
};
use crate::errors::{BlockError, BlockErrorView, LoopError, LoopErrorView};
use crate::types::{
    lemma_tags_distinct, resolve_block_type, spec_known_type, BlockTypes, data_tag, document_tag,
    group_tag, habit_tag, task_tag, text_tag,
};

verus! {

/// The capability set every block type implements. The core routes
/// generic operations here; implementations do their own persistence and
/// access checks. `block_name` and `icon` are functions of their
/// arguments; every other operation's result may also depend on the
/// outside world, so each implementation instead characterizes its
/// results by a postcondition predicate of its own (`create_post` and
/// the like), and the dispatcher's contracts hand those predicates on.
pub trait BlockVariant: Sized {
    /// Whether naming the block succeeds in this context.
    spec fn name_ok(&self, context: ContextView, block: BlockView) -> bool;

    /// The name this variant gives the block when naming succeeds.
    spec fn name_of(&self, context: ContextView, block: BlockView) -> Seq<char>;

    /// The error naming the block fails with when it fails.
    spec fn name_err(&self, context: ContextView, block: BlockView) -> LoopErrorView;

    /// The icon this variant advertises.
    spec fn icon_spec(&self) -> Icon;

    /// What this variant's `create` may return for these arguments.
    spec fn create_post(
        &self,
        context: ContextView,
        input: Seq<char>,
        user_id: i32,
        result: Result<Block, LoopError>,
    ) -> bool;

    /// What this variant's `page_display` may return for these arguments.
    spec fn page_display_post(
        &self,
        context: ContextView,
        block: BlockView,
        result: Result<DisplayObject, LoopError>,
    ) -> bool;

    /// What this variant's `embed_display` may return for these arguments.
    spec fn embed_display_post(
        &self,
        context: ContextView,
        block: BlockView,
        result: DisplayComponent,
    ) -> bool;

    /// What this variant's `create_display` may return for these arguments.
    spec fn create_display_post(
        &self,
        context: ContextView,
        user_id: i32,
        result: Result<CreationObject, LoopError>,
    ) -> bool;

    /// What this variant's `method_delegate` may return for these arguments.
    spec fn method_post(
        &self,
        context: ContextView,
        name: Seq<char>,
        block_id: i64,
        args: Seq<char>,
        result: Result<Block, LoopError>,
    ) -> bool;

    /// What this variant's `visibility_update` may return for these arguments.
    spec fn visibility_post(
        &self,
        context: ContextView,
        block_id: i64,
        public: bool,
        result: Result<(), LoopError>,
    ) -> bool;

    /// What this variant's `general_perm_update` may return for these arguments.
    spec fn perm_update_post(
        &self,
        context: ContextView,
        block_id: i64,
        perm_full: Seq<i32>,
        perm_edit: Seq<i32>,
        perm_view: Seq<i32>,
        result: Result<(), LoopError>,
    ) -> bool;

    /// Creates a block of this type from the raw input.
    fn create(&self, input: String, context: &Context, user_id: i32) -> (r: Result<
        Block,
        LoopError,
    >)
        ensures
            self.create_post(context@, input@, user_id, r),
    ;

    /// The full-page display of a block of this type.
    fn page_display(&self, block: &Block, context: &Context) -> (r: Result<
        DisplayObject,
        LoopError,
    >)
        ensures
            self.page_display_post(context@, block@, r),
    ;

    /// The compact, embeddable display of a block of this type.
    fn embed_display(&self, block: &Block, context: &Context) -> (r: DisplayComponent)
        ensures
            self.embed_display_post(context@, block@, r),
    ;

    /// The display offered for creating a block of this type.
    fn create_display(&self, context: &Context, user_id: i32) -> (r: Result<
        CreationObject,
        LoopError,
    >)
        ensures
            self.create_display_post(context@, user_id, r),
    ;

    /// The display name of the block.
    fn block_name(&self, block: &Block, context: &Context) -> (r: Result<String, LoopError>)
        ensures
            match r {
                Ok(name) => self.name_ok(context@, block@) && name@ == self.name_of(
                    context@,
                    block@,
                ),
                Err(e) => !self.name_ok(context@, block@) && e@ == self.name_err(
                    context@,
                    block@,
                ),
            },
    ;

    /// Invokes a named, type-specific method on a block.
    fn method_delegate(
        &self,
        context: &Context,
        name: String,
        block_id: i64,
        args: String,
    ) -> (r: Result<Block, LoopError>)
        ensures
            self.method_post(context@, name@, block_id, args@, r),
    ;

    /// Updates the public flag of a block.
    fn visibility_update(&self, context: &Context, block_id: i64, public: bool) -> (r: Result<
        (),
        LoopError,
    >)
        ensures
            self.visibility_post(context@, block_id, public, r),
    ;

    /// Replaces the three permission sets of a block in one write.
    fn general_perm_update(
        &self,
        context: &Context,
        block_id: i64,
        perm_full: Vec<i32>,
        perm_edit: Vec<i32>,
        perm_view: Vec<i32>,
    ) -> (r: Result<(), LoopError>)
        ensures
            self.perm_update_post(context@, block_id, perm_full@, perm_edit@, perm_view@, r),
    ;

    /// The icon this variant advertises.
    fn icon(&self) -> (r: Icon)
        ensures
            r == self.icon_spec(),
    ;
}

/// The registration table: one variant implementation per known type.
/// Extending the platform with a new type adds one variant and one entry
/// here; no existing variant changes.
pub struct Registry<V> {
    pub data: V,
    pub text: V,
    pub group: V,
    pub document: V,
    pub habit: V,
    pub task: V,
}

/// The error every delegated operation fails with on an unresolved tag.
pub open spec fn spec_type_not_found(tag: Seq<char>) -> LoopErrorView {
    LoopErrorView::BlockError(BlockErrorView::TypeExist(tag))
}

/// What naming a block through one variant yields.
pub open spec fn spec_variant_name<V: BlockVariant>(
    variant: V,
    context: ContextView,
    block: BlockView,
) -> Result<Seq<char>, LoopErrorView> {
    if variant.name_ok(context, block) {
        Ok(variant.name_of(context, block))
    } else {
        Err(variant.name_err(context, block))
    }
}

/// The registered variant a known tag resolves to.
pub open spec fn spec_variant_of<V: BlockVariant>(registry: Registry<V>, tag: Seq<char>) -> V
    recommends
        spec_known_type(tag),
{
    if tag == data_tag() {
        registry.data
    } else if tag == text_tag() {
        registry.text
    } else if tag == group_tag() {
        registry.group
    } else if tag == document_tag() {
        registry.document
    } else if tag == habit_tag() {
        registry.habit
    } else {
        registry.task
    }
}

/// What delegating `block_name` on the given tag yields: the resolved
/// variant's name for the block, or type-not-found on an unresolved tag.
pub open spec fn spec_delegated_name<V: BlockVariant>(
    registry: Registry<V>,
    context: ContextView,
    tag: Seq<char>,
    block: BlockView,
) -> Result<Seq<char>, LoopErrorView> {
    if spec_known_type(tag) {
        spec_variant_name(spec_variant_of(registry, tag), context, block)
    } else {
        Err(spec_type_not_found(tag))
    }
}

/// What delegating the icon lookup on the given tag yields.
pub open spec fn spec_delegated_icon<V: BlockVariant>(
    registry: Registry<V>,
    tag: Seq<char>,
) -> Option<Icon> {
    if spec_known_type(tag) {
        Some(spec_variant_of(registry, tag).icon_spec())
    } else {
        None
    }
}

/// Routes `create` to the variant the tag resolves to: the result is one
/// that variant's `create` may return for these exact arguments. An
/// unresolved tag fails with type-not-found carrying that exact tag.
pub fn delegate_create<V: BlockVariant>(
    registry: &Registry<V>,
    block_type: &str,
    input: String,
    context: &Context,
    user_id: i32,
) -> (r: Result<Block, LoopError>)
    ensures
        spec_known_type(block_type@) ==> spec_variant_of(*registry, block_type@).create_post(
            context@,
            input@,
            user_id,
            r,
        ),
        !spec_known_type(block_type@) ==> (r matches Err(e) && e@ == spec_type_not_found(
            block_type@,
        )),
{
    proof {
        lemma_tags_distinct();
    }
    match resolve_block_type(block_type) {
        BlockTypes::Data => registry.data.create(input, context, user_id),
        BlockTypes::Text => registry.text.create(input, context, user_id),
        BlockTypes::Group => registry.group.create(input, context, user_id),
        BlockTypes::Document => registry.document.create(input, context, user_id),
        BlockTypes::Habit => registry.habit.create(input, context, user_id),
        BlockTypes::Task => registry.task.create(input, context, user_id),
        BlockTypes::Invalid(name) => Err(LoopError::from(BlockError::TypeExist(name))),
    }
}

/// Routes a named method invocation to the variant the tag resolves to:
/// the result is one that variant's `method_delegate` may return for
/// these exact arguments. An unresolved tag fails with type-not-found
/// carrying that exact tag.
pub fn delegate_method<V: BlockVariant>(
    registry: &Registry<V>,
    context: &Context,
    block_type: String,
    args: String,
    name: String,
    block_id: i64,
) -> (r: Result<Block, LoopError>)
    ensures
        spec_known_type(block_type@) ==> spec_variant_of(*registry, block_type@).method_post(
            context@,
            name@,
            block_id,
            args@,
            r,
        ),
        !spec_known_type(block_type@) ==> (r matches Err(e) && e@ == spec_type_not_found(
            block_type@,
        )),
{
    proof {
        lemma_tags_distinct();
    }
    match resolve_block_type(block_type.as_str()) {
        BlockTypes::Data => registry.data.method_delegate(context, name, block_id, args),
        BlockTypes::Text => registry.text.method_delegate(context, name, block_id, args),
        BlockTypes::Habit => registry.habit.method_delegate(context, name, block_id, args),
        BlockTypes::Document => registry.document.method_delegate(context, name, block_id, args),
        BlockTypes::Group => registry.group.method_delegate(context, name, block_id, args),
        BlockTypes::Task => registry.task.method_delegate(context, name, block_id, args),
        BlockTypes::Invalid(unresolved) => Err(LoopError::from(BlockError::TypeExist(unresolved))),
    }
}

/// Routes a public-flag update to the variant the tag resolves to: the
/// result is one that variant's `visibility_update` may return for these
/// exact arguments. An unresolved tag fails with type-not-found carrying
/// that exact tag.
pub fn delegate_visibility_update<V: BlockVariant>(
    registry: &Registry<V>,
    context: &Context,
    block_type: &str,
    block_id: i64,
    public: bool,
) -> (r: Result<(), LoopError>)
    ensures
        spec_known_type(block_type@) ==> spec_variant_of(*registry, block_type@).visibility_post(
            context@,
            block_id,
            public,
            r,
        ),
        !spec_known_type(block_type@) ==> (r matches Err(e) && e@ == spec_type_not_found(
            block_type@,
        )),
{
    proof {
        lemma_tags_distinct();
    }
    match resolve_block_type(block_type) {
        BlockTypes::Data => registry.data.visibility_update(context, block_id, public),
        BlockTypes::Text => registry.text.visibility_update(context, block_id, public),
        BlockTypes::Group => registry.group.visibility_update(context, block_id, public),
        BlockTypes::Habit => registry.habit.visibility_update(context, block_id, public),
        BlockTypes::Task => registry.task.visibility_update(context, block_id, public),
        BlockTypes::Document => registry.document.visibility_update(context, block_id, public),
        BlockTypes::Invalid(name) => Err(LoopError::from(BlockError::TypeExist(name))),
    }
}

/// Routes a permission-set update to the variant the tag resolves to:
/// the result is one that variant's `general_perm_update` may return for
/// these exact arguments. An unresolved tag fails with type-not-found
/// carrying that exact tag.
pub fn delegate_general_perm_update<V: BlockVariant>(
    registry: &Registry<V>,
    context: &Context,
    block_type: &str,
    block_id: i64,
    perm_full: Vec<i32>,
    perm_edit: Vec<i32>,
    perm_view: Vec<i32>,
) -> (r: Result<(), LoopError>)
    ensures
        spec_known_type(block_type@) ==> spec_variant_of(*registry, block_type@).perm_update_post(
            context@,
            block_id,
            perm_full@,
            perm_edit@,
            perm_view@,
            r,
        ),
        !spec_known_type(block_type@) ==> (r matches Err(e) && e@ == spec_type_not_found(
            block_type@,
        )),
{
    proof {
        lemma_tags_distinct();
    }
    match resolve_block_type(block_type) {
        BlockTypes::Data => registry.data.general_perm_update(
            context,
            block_id,
            perm_full,
            perm_edit,
            perm_view,
        ),
        BlockTypes::Text => registry.text.general_perm_update(
            context,
            block_id,
            perm_full,
            perm_edit,
            perm_view,
        ),
        BlockTypes::Group => registry.group.general_perm_update(
            context,
            block_id,
            perm_full,
            perm_edit,
            perm_view,
        ),
        BlockTypes::Habit => registry.habit.general_perm_update(
            context,
            block_id,
            perm_full,
            perm_edit,
            perm_view,
        ),
        BlockTypes::Task => registry.task.general_perm_update(
            context,
            block_id,
            perm_full,
            perm_edit,
            perm_view,
        ),
        BlockTypes::Document => registry.document.general_perm_update(
            context,
            block_id,
            perm_full,
            perm_edit,
            perm_view,
        ),
        BlockTypes::Invalid(name) => Err(LoopError::from(BlockError::TypeExist(name))),
    }
}

/// Routes the full-page display to the variant the block's tag resolves
/// to: the result is one that variant's `page_display` may return for
/// these exact arguments. An unresolved tag never fails the request: it
/// yields a visibly marked error display instead.
pub fn delegate_page_display<V: BlockVariant>(
    registry: &Registry<V>,
    block: &Block,
    context: &Context,
) -> (r: Result<DisplayObject, LoopError>)
    ensures
        spec_known_type(block@.block_type) ==> spec_variant_of(
            *registry,
            block@.block_type,
        ).page_display_post(context@, block@, r),
        !spec_known_type(block@.block_type) ==> ({
            &&& r matches Ok(o)
            &&& o.display matches DisplayComponent::Text(t)
            &&& t.text@ == "Invalid block type '"@ + block@.block_type + "'"@
            &&& t.color matches Some(c)
            &&& c@ == "#ff0000"@
        }),
{
    proof {
        lemma_tags_distinct();
    }
    match resolve_block_type(block.block_type.as_str()) {
        BlockTypes::Data => registry.data.page_display(block, context),
        BlockTypes::Text => registry.text.page_display(block, context),
        BlockTypes::Group => registry.group.page_display(block, context),
        BlockTypes::Document => registry.document.page_display(block, context),
        BlockTypes::Habit => registry.habit.page_display(block, context),
        BlockTypes::Task => registry.task.page_display(block, context),
        BlockTypes::Invalid(name) => Ok(
            DisplayObject::new(
                DisplayComponent::Text(
                    TextComponent {
                        color: Some(String::from_str("#ff0000")),
                        text: String::from_str("Invalid block type '").concat(name.as_str()).concat(
                            "'",
                        ),
                    },
                ),
            ),
        ),
    }
}

/// Routes the compact display to the variant the block's tag resolves
/// to: the result is one that variant's `embed_display` may return for
/// these exact arguments. An unresolved tag degrades instead of failing:
/// an authenticated
/// caller sees an error-styled card, an anonymous caller an empty text
/// component (no type-resolution diagnostics leak to anonymous callers).
pub fn delegate_embed_display<V: BlockVariant>(
    registry: &Registry<V>,
    block: &Block,
    context: &Context,
) -> (r: DisplayComponent)
    ensures
        spec_known_type(block@.block_type) ==> spec_variant_of(
            *registry,
            block@.block_type,
        ).embed_display_post(context@, block@, r),
        !spec_known_type(block@.block_type) && context@.auth_user is Some ==> ({
            &&& r matches DisplayComponent::Card(card)
            &&& spec_is_error_card(card, "Invalid block type: "@ + block@.block_type)
        }),
        !spec_known_type(block@.block_type) && context@.auth_user is None ==> ({
            &&& r matches DisplayComponent::Text(t)
            &&& t.text@ == Seq::<char>::empty()
            &&& t.color is None
        }),
{
    proof {
        lemma_tags_distinct();
    }
    let user_id = context.auth_user;
    match resolve_block_type(block.block_type.as_str()) {
        BlockTypes::Data => registry.data.embed_display(block, context),
        BlockTypes::Text => registry.text.embed_display(block, context),
        BlockTypes::Group => registry.group.embed_display(block, context),
        BlockTypes::Document => registry.document.embed_display(block, context),
        BlockTypes::Habit => registry.habit.embed_display(block, context),
        BlockTypes::Task => registry.task.embed_display(block, context),
        BlockTypes::Invalid(_) => {
            if user_id.is_some() {
                let text = String::from_str("Invalid block type: ").concat(
                    block.block_type.as_str(),
                );
                DisplayComponent::Card(CardComponent::error_card(text))
            } else {
                DisplayComponent::Text(TextComponent::new(String::new()))
            }
        },
    }
}

/// Routes the creation display to the variant the tag resolves to: the
/// result is one that variant's `create_display` may return for these
/// exact arguments. An unresolved tag fails with type-not-found carrying
/// that exact tag.
pub fn delegate_creation_display<V: BlockVariant>(
    registry: &Registry<V>,
    context: &Context,
    block_type: &str,
    user_id: i32,
) -> (r: Result<CreationObject, LoopError>)
    ensures
        spec_known_type(block_type@) ==> spec_variant_of(
            *registry,
            block_type@,
        ).create_display_post(context@, user_id, r),
        !spec_known_type(block_type@) ==> (r matches Err(e) && e@ == spec_type_not_found(
            block_type@,
        )),
{
    proof {
        lemma_tags_distinct();
    }
    match resolve_block_type(block_type) {
        BlockTypes::Data => registry.data.create_display(context, user_id),
        BlockTypes::Text => registry.text.create_display(context, user_id),
        BlockTypes::Group => registry.group.create_display(context, user_id),
        BlockTypes::Document => registry.document.create_display(context, user_id),
        BlockTypes::Habit => registry.habit.create_display(context, user_id),
        BlockTypes::Task => registry.task.create_display(context, user_id),
        BlockTypes::Invalid(name) => Err(LoopError::from(BlockError::TypeExist(name))),
    }
}

/// Routes `block_name` to the variant the tag resolves to: exactly the
/// name `spec_delegated_name` gives, with type-not-found on an
/// unresolved tag.
pub fn delegate_block_name<V: BlockVariant>(
    registry: &Registry<V>,
    context: &Context,
    block_type: &str,
    block: &Block,
) -> (r: Result<String, LoopError>)
    ensures
        match r {
            Ok(name) => spec_delegated_name(*registry, context@, block_type@, block@) matches Ok(n)
                && n == name@,
            Err(e) => spec_delegated_name(*registry, context@, block_type@, block@) matches Err(ev)
                && ev == e@,
        },
{
    proof {
        lemma_tags_distinct();
    }
    match resolve_block_type(block_type) {
        BlockTypes::Data => registry.data.block_name(block, context),
        BlockTypes::Text => registry.text.block_name(block, context),
        BlockTypes::Group => registry.group.block_name(block, context),
        BlockTypes::Document => registry.document.block_name(block, context),
        BlockTypes::Habit => registry.habit.block_name(block, context),
        BlockTypes::Task => registry.task.block_name(block, context),
        BlockTypes::Invalid(name) => Err(LoopError::from(BlockError::TypeExist(name))),
    }
}

/// Looks up the icon of the variant the tag resolves to; an unresolved
/// tag yields none rather than failing.
pub fn delegate_block_icon<V: BlockVariant>(registry: &Registry<V>, block_type: &str) -> (r: Option<
    Icon,
>)
    ensures
        r == spec_delegated_icon(*registry, block_type@),
{
    proof {
        lemma_tags_distinct();
    }
    match resolve_block_type(block_type) {
        BlockTypes::Data => Some(registry.data.icon()),
        BlockTypes::Text => Some(registry.text.icon()),
        BlockTypes::Group => Some(registry.group.icon()),
        BlockTypes::Document => Some(registry.document.icon()),
        BlockTypes::Habit => Some(registry.habit.icon()),
        BlockTypes::Task => Some(registry.task.icon()),
        BlockTypes::Invalid(_) => None,
    }
}

} // verus!
