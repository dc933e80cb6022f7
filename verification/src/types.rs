//! Resolution of a block's type tag to one of the fixed, known variants,
//! or to the `Invalid` sentinel carrying the unresolved tag.

use vstd::prelude::*;

use crate::strings::str_eq;

verus! {

/// The fixed enumeration of known block types, with a sentinel for a tag
/// that resolves to none of them.
pub enum BlockTypes {
    Data,
    Text,
    Group,
    Document,
    Habit,
    Task,
    Invalid(String),
}

/// The tag of the Data variant.
pub open spec fn data_tag() -> Seq<char> {
    "data"@
}

/// The tag of the Text variant.
pub open spec fn text_tag() -> Seq<char> {
    "text"@
}

/// The tag of the Group container variant.
pub open spec fn group_tag() -> Seq<char> {
    "group"@
}

/// The tag of the Document variant.
pub open spec fn document_tag() -> Seq<char> {
    "document"@
}

/// The tag of the Habit variant.
pub open spec fn habit_tag() -> Seq<char> {
    "habit"@
}

/// The tag of the Task variant.
pub open spec fn task_tag() -> Seq<char> {
    "task"@
}

/// Whether the tag names one of the known variants.
pub open spec fn spec_known_type(tag: Seq<char>) -> bool {
    ||| tag == data_tag()
    ||| tag == text_tag()
    ||| tag == group_tag()
    ||| tag == document_tag()
    ||| tag == habit_tag()
    ||| tag == task_tag()
}

impl BlockTypes {
    /// Whether this value is what the given tag resolves to.
    pub open spec fn resolves(self, tag: Seq<char>) -> bool {
        match self {
            BlockTypes::Data => tag == data_tag(),
            BlockTypes::Text => tag == text_tag(),
            BlockTypes::Group => tag == group_tag(),
            BlockTypes::Document => tag == document_tag(),
            BlockTypes::Habit => tag == habit_tag(),
            BlockTypes::Task => tag == task_tag(),
            BlockTypes::Invalid(name) => !spec_known_type(tag) && name@ == tag,
        }
    }
}

/// The six known tags are pairwise distinct.
pub proof fn lemma_tags_distinct()
    ensures
        data_tag() != text_tag(),
        data_tag() != group_tag(),
        data_tag() != document_tag(),
        data_tag() != habit_tag(),
        data_tag() != task_tag(),
        text_tag() != group_tag(),
        text_tag() != document_tag(),
        text_tag() != habit_tag(),
        text_tag() != task_tag(),
        group_tag() != document_tag(),
        group_tag() != habit_tag(),
        group_tag() != task_tag(),
        document_tag() != habit_tag(),
        document_tag() != task_tag(),
        habit_tag() != task_tag(),
{
    reveal_strlit("data");
    reveal_strlit("text");
    reveal_strlit("group");
    reveal_strlit("document");
    reveal_strlit("habit");
    reveal_strlit("task");
    assert(data_tag().len() == 4 && text_tag().len() == 4 && group_tag().len() == 5
        && document_tag().len() == 8 && habit_tag().len() == 5 && task_tag().len() == 4);
    assert(data_tag()[0] == 'd' && text_tag()[0] == 't' && group_tag()[0] == 'g' && habit_tag()[0]
        == 'h' && task_tag()[0] == 't');
    assert(text_tag()[1] == 'e' && task_tag()[1] == 'a');
}

/// Resolves a type tag to the variant enumeration; a tag that is not
/// known resolves to `Invalid` carrying that exact tag.
pub fn resolve_block_type(block_type: &str) -> (r: BlockTypes)
    ensures
        r.resolves(block_type@),
{
    if str_eq(block_type, "data") {
        BlockTypes::Data
    } else if str_eq(block_type, "text") {
        BlockTypes::Text
    } else if str_eq(block_type, "group") {
        BlockTypes::Group
    } else if str_eq(block_type, "document") {
        BlockTypes::Document
    } else if str_eq(block_type, "habit") {
        BlockTypes::Habit
    } else if str_eq(block_type, "task") {
        BlockTypes::Task
    } else {
        BlockTypes::Invalid(block_type.to_owned())
    }
}

} // verus!
