//! Which asset of the dashboard answers a request.

use crate::text;
use crate::text::{contains, matches_at, trim_start_matches};
use vstd::prelude::*;

verus! {

/// The asset that opens the dashboard.
pub const INDEX: &'static str = "index.html";

/// How long an asset may be kept by the one who asked for it.
pub const CACHE_CONTROL: &'static str = "public, max-age=3600";

/// The media type that `mime_guess` gives for a path, or that of arbitrary bytes where it
/// knows none.
pub uninterp spec fn media_type_of(path: Seq<char>) -> Seq<char>;

/// The asset that a request path asks for: the path without its leading slashes, or the
/// index where nothing is left.
pub open spec fn asset_of(uri_path: Seq<char>) -> Seq<char> {
    let bare = trim_start_matches(uri_path, "/"@);
    if bare.len() == 0 {
        INDEX@
    } else {
        bare
    }
}

/// Whether an asset path stays inside the directory of the assets: it does not begin at
/// the root, and it holds neither a step to the directory above nor a backslash.
pub open spec fn stays_inside(asset: Seq<char>) -> bool {
    !matches_at(asset, "/"@, 0) && !contains(asset, ".."@) && !contains(asset, "\\"@)
}

/// Whether a request that names no asset is answered with the index: every one that does
/// not go to the interface under `api/`.
pub open spec fn falls_back(uri_path: Seq<char>) -> bool {
    !matches_at(trim_start_matches(uri_path, "/"@), "api/"@, 0)
}

/// `mime_guess::from_path` with `first_or_octet_stream`, written out as text; the result
/// is only named.
#[verifier::external_body]
fn guess_media_type(path: &str) -> (r: String)
    ensures
        r@ == media_type_of(path@),
{
    mime_guess::from_path(path).first_or_octet_stream().to_string()
}

/// The asset that a request path asks for.
pub fn asset_path(uri_path: &str) -> (r: String)
    ensures
        r@ == asset_of(uri_path@),
{
    let chars = text::chars_of(uri_path);
    let bare = text::trimmed_start_matches(&chars, "/");
    if bare.len() == 0 {
        String::from_str(INDEX)
    } else {
        text::string_of(&bare)
    }
}

/// Whether an asset path stays inside the directory of the assets.
pub fn is_inside(asset: &str) -> (r: bool)
    ensures
        r == stays_inside(asset@),
{
    let chars = text::chars_of(asset);
    !text::starts_with(&chars, "/") && !text::contains_str(&chars, "..") && !text::contains_str(
        &chars,
        "\\",
    )
}

/// Whether a request that names no asset is answered with the index.
pub fn serves_index_instead(uri_path: &str) -> (r: bool)
    ensures
        r == falls_back(uri_path@),
{
    let chars = text::chars_of(uri_path);
    let bare = text::trimmed_start_matches(&chars, "/");
    !text::starts_with(&bare, "api/")
}

/// The media type that an asset is sent with.
pub fn content_type(asset: &str) -> (r: String)
    ensures
        r@ == media_type_of(asset@),
{
    guess_media_type(asset)
}

} // verus!
