//! Colors of pull request, CI and activity states.

use vstd::prelude::*;

use crate::color::{Theme, amber, amber_at, blue, blue_at, gray, gray_at, green, green_at, is_dark, is_dark_spec, red, red_at, violet, violet_at};

verus! {

/// The open color: green, one step brighter on dark.
pub open spec fn open_at(dark: bool) -> u32 {
    if dark {
        green_at(10, true)
    } else {
        green_at(9, false)
    }
}

/// The draft color.
pub open spec fn draft_at(dark: bool) -> u32 {
    gray_at(9, dark)
}

/// The closed color.
pub open spec fn closed_at(dark: bool) -> u32 {
    red_at(9, dark)
}

/// The merged color: violet, one step deeper on light.
pub open spec fn merged_at(dark: bool) -> u32 {
    if dark {
        violet_at(9, true)
    } else {
        violet_at(10, false)
    }
}

/// The pending color: amber, a darker step on light for contrast.
pub open spec fn pending_at(dark: bool) -> u32 {
    if dark {
        amber_at(8, true)
    } else {
        amber_at(11, false)
    }
}

/// The comment color.
pub open spec fn comment_at(dark: bool) -> u32 {
    blue_at(9, dark)
}

/// An open pull request.
pub fn open(theme: Option<Theme>) -> (c: u32)
    ensures
        c == open_at(is_dark_spec(theme)),
{
    if is_dark(theme) {
        green(10, theme)
    } else {
        green(9, theme)
    }
}

/// A draft pull request.
pub fn draft(theme: Option<Theme>) -> (c: u32)
    ensures
        c == draft_at(is_dark_spec(theme)),
{
    gray(9, theme)
}

/// A closed pull request.
pub fn closed(theme: Option<Theme>) -> (c: u32)
    ensures
        c == closed_at(is_dark_spec(theme)),
{
    red(9, theme)
}

/// A merged pull request.
pub fn merged(theme: Option<Theme>) -> (c: u32)
    ensures
        c == merged_at(is_dark_spec(theme)),
{
    if is_dark(theme) {
        violet(9, theme)
    } else {
        violet(10, theme)
    }
}

/// Passing CI: the open color.
pub fn success(theme: Option<Theme>) -> (c: u32)
    ensures
        c == open_at(is_dark_spec(theme)),
{
    open(theme)
}

/// Failing CI: the closed color.
pub fn failure(theme: Option<Theme>) -> (c: u32)
    ensures
        c == closed_at(is_dark_spec(theme)),
{
    red(9, theme)
}

/// Pending CI.
pub fn pending(theme: Option<Theme>) -> (c: u32)
    ensures
        c == pending_at(is_dark_spec(theme)),
{
    if is_dark(theme) {
        amber(8, theme)
    } else {
        amber(11, theme)
    }
}

/// No CI: the draft color.
pub fn none(theme: Option<Theme>) -> (c: u32)
    ensures
        c == draft_at(is_dark_spec(theme)),
{
    gray(9, theme)
}

/// A comment.
pub fn comment(theme: Option<Theme>) -> (c: u32)
    ensures
        c == comment_at(is_dark_spec(theme)),
{
    blue(9, theme)
}

/// An approval: the success color.
pub fn approved(theme: Option<Theme>) -> (c: u32)
    ensures
        c == open_at(is_dark_spec(theme)),
{
    open(theme)
}

/// Requested changes: the failure color.
pub fn changes_requested(theme: Option<Theme>) -> (c: u32)
    ensures
        c == closed_at(is_dark_spec(theme)),
{
    failure(theme)
}

/// A reopened pull request: the open color.
pub fn reopened(theme: Option<Theme>) -> (c: u32)
    ensures
        c == open_at(is_dark_spec(theme)),
{
    open(theme)
}

} // verus!
