//! Looking up the title of the selected window.
//!
//! The lookup takes two queries. The first reports the length of the title.
//! A length of zero means either that the window has no title or that the
//! query failed; the error code read right after it tells the two apart. For
//! any other length the text is fetched into a buffer with one unit more
//! than the length, so that the terminator fits.

use crate::status::LastOperationStatus;
use crate::text::{append_utf16, lemma_utf16_of_basic_plane, utf16};
use vstd::prelude::*;

verus! {

/// What stands in for the title of a window that has none.
pub open spec fn placeholder_text() -> Seq<char> {
    "(empty)"@
}

/// The placeholder as UTF-16 code units.
pub open spec fn placeholder_units() -> Seq<u16> {
    utf16(placeholder_text())
}

/// What follows the query for the title's length.
#[derive(Clone, Copy, Debug, PartialEq, Eq, Structural)]
pub enum TitlePlan {
    /// The window has no title; the placeholder is shown in its place.
    UsePlaceholder,
    /// The text is fetched into a buffer of `capacity` units.
    Fetch { capacity: i32 },
    /// The query failed.
    Fail,
}

/// The lengths for which a buffer can be sized: the length and one more unit
/// are counted in `i32`.
pub open spec fn length_in_range(length: i32) -> bool {
    0 <= length < i32::MAX
}

/// The plan for a reported length and the error code read after it. The
/// error code matters only where the length is zero.
pub open spec fn title_plan(length: i32, last_error: u32) -> TitlePlan {
    if length != 0 {
        TitlePlan::Fetch { capacity: (length + 1) as i32 }
    } else if last_error != 0 {
        TitlePlan::Fail
    } else {
        TitlePlan::UsePlaceholder
    }
}

/// The title held by a buffer that the fetch has filled: all of it but the
/// last unit, which is the slot kept for the terminator.
pub open spec fn title_of_buffer(buffer: Seq<u16>) -> Seq<u16> {
    if buffer.len() == 0 {
        buffer
    } else {
        buffer.drop_last()
    }
}

/// Decides what follows the query for the title's length.
pub fn plan_title_lookup(length: i32, last_error: u32) -> (plan: TitlePlan)
    requires
        length_in_range(length),
    ensures
        plan == title_plan(length, last_error),
        plan matches TitlePlan::Fetch { capacity } ==> capacity == length + 1,
{
    if length != 0 {
        TitlePlan::Fetch { capacity: length + 1 }
    } else if last_error != 0 {
        TitlePlan::Fail
    } else {
        TitlePlan::UsePlaceholder
    }
}

/// The title shown for a window that has none.
pub fn placeholder_title() -> (title: Vec<u16>)
    ensures
        title@ == placeholder_units(),
{
    let mut title: Vec<u16> = Vec::new();
    append_utf16(&mut title, "(empty)");
    title
}

/// Takes the title out of the buffer that the fetch has filled. `copied` is
/// the number of units that the fetch reported; zero means that it failed.
pub fn title_from_buffer(buffer: Vec<u16>, copied: i32) -> (title: Result<
    Vec<u16>,
    LastOperationStatus,
>)
    ensures
        match title {
            Ok(units) => copied != 0 && units@ == title_of_buffer(buffer@),
            Err(status) => copied == 0 && status == LastOperationStatus::TitleFetchFailed,
        },
{
    if copied == 0 {
        Err(LastOperationStatus::TitleFetchFailed)
    } else {
        let mut units = buffer;
        units.pop();
        Ok(units)
    }
}

/// The placeholder is the seven units of `(empty)`, and so never an empty
/// title.
pub proof fn lemma_placeholder_is_not_empty()
    ensures
        placeholder_units() == seq![40u16, 101u16, 109u16, 112u16, 116u16, 121u16, 41u16],
        placeholder_units().len() == 7,
{
    reveal_strlit("(empty)");
    lemma_utf16_of_basic_plane(placeholder_text());
}

/// A title that is fetched has exactly the reported length: one unit less
/// than the buffer that was asked for.
pub proof fn lemma_fetched_title_length(length: i32, last_error: u32, buffer: Seq<u16>)
    requires
        length_in_range(length),
        title_plan(length, last_error) matches TitlePlan::Fetch { capacity } && buffer.len()
            == capacity,
    ensures
        title_of_buffer(buffer).len() == buffer.len() - 1,
        title_of_buffer(buffer).len() == length,
{
}

} // verus!
