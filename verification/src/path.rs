//! Image paths: the `.png` extension test and the name of the WebP sibling.

use vstd::prelude::*;
use vstd::string::*;

verus! {

/// The extension that replaces `.png` in the name of the WebP sibling.
pub open spec fn webp_extension() -> Seq<char> {
    seq!['.', 'w', 'e', 'b', 'p']
}

/// Whether `ext` is `.png`, letters in either case.
pub open spec fn is_png_extension(ext: Seq<char>) -> bool {
    &&& ext.len() == 4
    &&& ext[0] == '.'
    &&& (ext[1] == 'p' || ext[1] == 'P')
    &&& (ext[2] == 'n' || ext[2] == 'N')
    &&& (ext[3] == 'g' || ext[3] == 'G')
}

/// Whether the last four characters of `path` are a `.png` extension.
pub open spec fn has_png_extension(path: Seq<char>) -> bool {
    path.len() >= 4 && is_png_extension(path.subrange(path.len() - 4, path.len() as int))
}

/// The path without its four-character extension.
pub open spec fn stem_of(path: Seq<char>) -> Seq<char>
    recommends
        path.len() >= 4,
{
    path.subrange(0, path.len() - 4)
}

/// The sibling path: the extension replaced by `.webp`.
pub open spec fn webp_sibling_of(path: Seq<char>) -> Seq<char>
    recommends
        path.len() >= 4,
{
    stem_of(path) + webp_extension()
}

/// Tests whether `path` names a PNG file by its extension.
pub fn is_png_path(path: &str) -> (is_png: bool)
    ensures
        is_png == has_png_extension(path@),
{
    let n: usize = path.unicode_len();
    if n < 4 {
        return false;
    }
    let dot = path.get_char(n - 4);
    let p = path.get_char(n - 3);
    let m = path.get_char(n - 2);
    let g = path.get_char(n - 1);
    dot == '.' && (p == 'p' || p == 'P') && (m == 'n' || m == 'N') && (g == 'g' || g == 'G')
}

/// Why an image is refused before any processing begins.
#[derive(Clone, Copy, Debug, PartialEq, Eq, Structural)]
pub enum ValidationError {
    /// The path does not end in `.png`.
    NotPng,
    /// No file exists at the path.
    Missing,
}

/// The first image that was refused, by its index among the inputs.
#[derive(Clone, Copy, Debug, PartialEq, Eq, Structural)]
pub struct InvalidImage {
    pub index: usize,
    pub error: ValidationError,
}

/// Checks the images in order, the extension of each before its existence,
/// and stops at the first that is refused. `is_present` answers whether a
/// file is there. The check passes when every path is a PNG path for which
/// `is_present` cannot answer no.
pub fn validate_images<F: Fn(&String) -> bool>(paths: &Vec<String>, is_present: &F) -> (checked:
    Result<(), InvalidImage>)
    requires
        forall|i: int| 0 <= i < paths@.len() ==> call_requires(is_present, (&#[trigger] paths@[i],)),
    ensures
        (forall|i: int|
            0 <= i < paths@.len() ==> has_png_extension((#[trigger] paths@[i])@) && !call_ensures(
                is_present,
                (&paths@[i],),
                false,
            )) ==> checked is Ok,
        checked is Ok ==> forall|i: int|
            0 <= i < paths@.len() ==> has_png_extension((#[trigger] paths@[i])@) && call_ensures(
                is_present,
                (&paths@[i],),
                true,
            ),
        checked is Err ==> {
            let bad = checked->Err_0;
            &&& bad.index < paths@.len()
            &&& forall|i: int|
                0 <= i < bad.index ==> has_png_extension((#[trigger] paths@[i])@) && call_ensures(
                    is_present,
                    (&paths@[i],),
                    true,
                )
            &&& bad.error == ValidationError::NotPng ==> !has_png_extension(
                paths@[bad.index as int]@,
            )
            &&& bad.error == ValidationError::Missing ==> has_png_extension(
                paths@[bad.index as int]@,
            ) && call_ensures(is_present, (&paths@[bad.index as int],), false)
        },
{
    let mut i: usize = 0;
    while i < paths.len()
        invariant
            i <= paths@.len(),
            forall|k: int| 0 <= k < paths@.len() ==> call_requires(is_present, (&#[trigger] paths@[k],)),
            forall|k: int|
                0 <= k < i ==> has_png_extension((#[trigger] paths@[k])@) && call_ensures(
                    is_present,
                    (&paths@[k],),
                    true,
                ),
        decreases paths@.len() - i,
    {
        if !is_png_path(paths[i].as_str()) {
            return Err(InvalidImage { index: i, error: ValidationError::NotPng });
        }
        if !is_present(&paths[i]) {
            return Err(InvalidImage { index: i, error: ValidationError::Missing });
        }
        i += 1;
    }
    Ok(())
}

/// Builds the path of the WebP sibling of a PNG path.
pub fn webp_sibling(path: &str) -> (sibling: String)
    requires
        has_png_extension(path@),
    ensures
        sibling@ == webp_sibling_of(path@),
{
    let n: usize = path.unicode_len();
    let mut sibling = String::from_str(path.substring_char(0, n - 4));
    sibling.append(".webp");
    proof {
        reveal_strlit(".webp");
    }
    sibling
}

/// The sibling keeps the stem and differs from the PNG path, so deleting one
/// file of the pair never touches the other.
pub proof fn lemma_sibling_is_distinct(path: Seq<char>)
    requires
        has_png_extension(path),
    ensures
        webp_sibling_of(path).len() == path.len() + 1,
        webp_sibling_of(path).subrange(0, path.len() - 4) == stem_of(path),
        webp_sibling_of(path) != path,
        !has_png_extension(webp_sibling_of(path)),
{
    let sibling = webp_sibling_of(path);
    assert(sibling.subrange(sibling.len() - 4, sibling.len() as int)[0] == 'w');
}

} // verus!
