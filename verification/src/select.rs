//! Choosing the winner of a PNG / WebP artifact pair by byte size.

use vstd::prelude::*;
use vstd::string::*;
use crate::path::{has_png_extension, webp_sibling, webp_sibling_of};

verus! {

/// One of the two encodings of an image.
#[derive(Clone, Copy, Debug, PartialEq, Eq, Structural)]
pub enum Encoding {
    Png,
    Webp,
}

/// The verdict on one artifact pair: which encoding won, and which file, if
/// any, is to be deleted.
#[derive(Clone, Copy, Debug, PartialEq, Eq, Structural)]
pub struct Selection {
    pub winner: Encoding,
    pub removed: Option<Encoding>,
}

/// The selection rule. The PNG wins only when the WebP is strictly larger, and
/// then the WebP is deleted. Otherwise the WebP wins, equal sizes included, and
/// the PNG is deleted only when `allow_remove_larger_png` is set.
pub open spec fn selection_for(png_size: u64, webp_size: u64, allow_remove_larger_png: bool)
    -> Selection {
    if webp_size > png_size {
        Selection { winner: Encoding::Png, removed: Some(Encoding::Webp) }
    } else if allow_remove_larger_png {
        Selection { winner: Encoding::Webp, removed: Some(Encoding::Png) }
    } else {
        Selection { winner: Encoding::Webp, removed: None }
    }
}

/// What is done when the two size queries came back as `png` and `webp`: a
/// selection when both succeeded, nothing when either failed.
pub open spec fn selection_from_queries(
    png: Option<u64>,
    webp: Option<u64>,
    allow_remove_larger_png: bool,
) -> Option<Selection> {
    match (png, webp) {
        (Some(p), Some(w)) => Some(selection_for(p, w, allow_remove_larger_png)),
        _ => None,
    }
}

/// The path of the file that `selection` deletes from the pair of `png_path`,
/// if it deletes one.
pub open spec fn removal_target(selection: Selection, png_path: Seq<char>) -> Option<Seq<char>>
    recommends
        has_png_extension(png_path),
{
    match selection.removed {
        Some(Encoding::Png) => Some(png_path),
        Some(Encoding::Webp) => Some(webp_sibling_of(png_path)),
        None => None,
    }
}

/// The path to delete for the image at `png_path`, given what the two size
/// queries returned.
pub open spec fn removal_for(
    png_path: Seq<char>,
    png_size: Option<u64>,
    webp_size: Option<u64>,
    allow_remove_larger_png: bool,
) -> Option<Seq<char>>
    recommends
        has_png_extension(png_path),
{
    match selection_from_queries(png_size, webp_size, allow_remove_larger_png) {
        Some(selection) => removal_target(selection, png_path),
        None => None,
    }
}

/// The views of an optional path.
pub open spec fn path_view(path: Option<String>) -> Option<Seq<char>> {
    match path {
        Some(p) => Some(p@),
        None => None,
    }
}

impl Selection {
    /// Whether the PNG file is still in place once the selection is carried out.
    pub open spec fn retains_png(self) -> bool {
        self.removed != Some(Encoding::Png)
    }

    /// Whether the WebP file is still in place once the selection is carried out.
    pub open spec fn retains_webp(self) -> bool {
        self.removed != Some(Encoding::Webp)
    }

    pub fn keeps_png(&self) -> (kept: bool)
        ensures
            kept == self.retains_png(),
    {
        match self.removed {
            Some(Encoding::Png) => false,
            _ => true,
        }
    }

    pub fn keeps_webp(&self) -> (kept: bool)
        ensures
            kept == self.retains_webp(),
    {
        match self.removed {
            Some(Encoding::Webp) => false,
            _ => true,
        }
    }

    /// The path of the file to delete from the pair of `png_path`, if any.
    pub fn loser_path(&self, png_path: &str) -> (target: Option<String>)
        requires
            has_png_extension(png_path@),
        ensures
            path_view(target) == removal_target(*self, png_path@),
    {
        match self.removed {
            Some(Encoding::Png) => Some(String::from_str(png_path)),
            Some(Encoding::Webp) => Some(webp_sibling(png_path)),
            None => None,
        }
    }
}

/// Compares the two artifact sizes and decides which file goes.
pub fn select_winner(png_size: u64, webp_size: u64, allow_remove_larger_png: bool) -> (selection:
    Selection)
    ensures
        selection == selection_for(png_size, webp_size, allow_remove_larger_png),
{
    if webp_size > png_size {
        Selection { winner: Encoding::Png, removed: Some(Encoding::Webp) }
    } else {
        let removed = if allow_remove_larger_png {
            Some(Encoding::Png)
        } else {
            None
        };
        Selection { winner: Encoding::Webp, removed }
    }
}

/// Decides from the outcome of the two size queries. A failed query on either
/// side leaves both files untouched.
pub fn select_from_queries(
    png: Option<u64>,
    webp: Option<u64>,
    allow_remove_larger_png: bool,
) -> (selection: Option<Selection>)
    ensures
        selection == selection_from_queries(png, webp, allow_remove_larger_png),
{
    match (png, webp) {
        (Some(p), Some(w)) => Some(select_winner(p, w, allow_remove_larger_png)),
        _ => None,
    }
}

/// Names the file to delete for the image at `png_path`, from what the two
/// size queries returned: none when either query failed, the WebP sibling when
/// it is the larger file, else the PNG when its removal is permitted.
pub fn file_to_remove(
    png_path: &str,
    png_size: Option<u64>,
    webp_size: Option<u64>,
    allow_remove_larger_png: bool,
) -> (target: Option<String>)
    requires
        has_png_extension(png_path@),
    ensures
        path_view(target) == removal_for(png_path@, png_size, webp_size, allow_remove_larger_png),
{
    match select_from_queries(png_size, webp_size, allow_remove_larger_png) {
        Some(selection) => selection.loser_path(png_path),
        None => None,
    }
}

/// On equal sizes the WebP wins and is never the file that goes, whatever the
/// flag says.
pub proof fn lemma_tie_prefers_webp(size: u64, allow_remove_larger_png: bool)
    ensures
        selection_for(size, size, allow_remove_larger_png).winner == Encoding::Webp,
        selection_for(size, size, allow_remove_larger_png).retains_webp(),
        selection_for(size, size, allow_remove_larger_png).retains_png()
            == !allow_remove_larger_png,
{
}

/// On equal sizes, with removal of the original permitted, the PNG is the file
/// that goes.
pub proof fn lemma_tie_removes_png(size: u64, allow_remove_larger_png: bool)
    requires
        allow_remove_larger_png,
    ensures
        selection_for(size, size, allow_remove_larger_png).removed == Some(Encoding::Png),
{
}

/// Without permission to remove the original, a WebP that is no larger than the
/// PNG leaves both files in place.
pub proof fn lemma_default_keeps_both(png_size: u64, webp_size: u64)
    requires
        webp_size <= png_size,
    ensures
        selection_for(png_size, webp_size, false).removed is None,
        selection_for(png_size, webp_size, false).retains_png(),
        selection_for(png_size, webp_size, false).retains_webp(),
{
}

/// A WebP that is larger than the PNG is removed and the PNG stays, whatever
/// the flag says.
pub proof fn lemma_larger_webp_is_removed(
    png_size: u64,
    webp_size: u64,
    allow_remove_larger_png: bool,
)
    requires
        webp_size > png_size,
    ensures
        selection_for(png_size, webp_size, allow_remove_larger_png).winner == Encoding::Png,
        selection_for(png_size, webp_size, allow_remove_larger_png).removed == Some(
            Encoding::Webp,
        ),
        selection_for(png_size, webp_size, allow_remove_larger_png).retains_png(),
{
}

/// The original PNG is never removed unless removal was permitted.
pub proof fn lemma_png_removed_only_when_allowed(
    png_size: u64,
    webp_size: u64,
    allow_remove_larger_png: bool,
)
    ensures
        !selection_for(png_size, webp_size, allow_remove_larger_png).retains_png() ==> (
        allow_remove_larger_png && webp_size <= png_size),
        !(selection_for(png_size, webp_size, allow_remove_larger_png).removed is Some
            && selection_for(png_size, webp_size, allow_remove_larger_png).removed
            == Some(selection_for(png_size, webp_size, allow_remove_larger_png).winner)),
{
}

/// Whatever the sizes and the flag, at most one file of a pair is named for
/// deletion, it is the loser, and it is the PNG only when that was permitted.
pub proof fn lemma_removal_spares_winner(
    png_path: Seq<char>,
    png_size: u64,
    webp_size: u64,
    allow_remove_larger_png: bool,
)
    requires
        has_png_extension(png_path),
    ensures
        removal_for(png_path, Some(png_size), Some(webp_size), allow_remove_larger_png) == Some(
            png_path,
        ) <==> (allow_remove_larger_png && webp_size <= png_size),
        removal_for(png_path, Some(png_size), Some(webp_size), allow_remove_larger_png) == Some(
            webp_sibling_of(png_path),
        ) <==> webp_size > png_size,
{
    crate::path::lemma_sibling_is_distinct(png_path);
}

/// A failed size query on either side names no file for deletion.
pub proof fn lemma_failed_query_removes_nothing(
    png_path: Seq<char>,
    png_size: Option<u64>,
    webp_size: Option<u64>,
    allow_remove_larger_png: bool,
)
    requires
        png_size is None || webp_size is None,
    ensures
        removal_for(png_path, png_size, webp_size, allow_remove_larger_png) is None,
{
}

} // verus!
