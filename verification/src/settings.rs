//! The persisted settings: the storage key under which each value
//! lives, and the default applied to a blank endpoint URL.  The
//! key/value store itself is an outside collaborator; the library only
//! fixes the keys and the defaulting rule.

use vstd::prelude::*;

verus! {

use vstd::string::StrSliceExecFns;
use vstd::string::StringExecFns;
use crate::text::trim_spec;
use crate::text::trim_ws;

/// The storage key of the premise text.
pub fn premise_storage_key() -> (r: &'static str)
    ensures
        r@ == "ebook_prompt_studio_premise"@,
{
    "ebook_prompt_studio_premise"
}

/// The storage key of the endpoint URL.
pub fn worker_url_storage_key() -> (r: &'static str)
    ensures
        r@ == "ebook_prompt_studio_worker_url"@,
{
    "ebook_prompt_studio_worker_url"
}

/// The storage key of the credential token.
pub fn api_key_storage_key() -> (r: &'static str)
    ensures
        r@ == "ebook_prompt_studio_api_key"@,
{
    "ebook_prompt_studio_api_key"
}

/// The endpoint used when no endpoint URL has been configured.
pub open spec fn default_endpoint_spec() -> Seq<char> {
    "https://ebook-image-forge.mikegyver.workers.dev/api/generate"@
}

/// The configured endpoint, or the default exactly when the loaded
/// value is blank (empty or whitespace only).
pub open spec fn endpoint_or_default_spec(loaded: Seq<char>) -> Seq<char> {
    if trim_spec(loaded).len() == 0 {
        default_endpoint_spec()
    } else {
        loaded
    }
}

/// Applies the endpoint default to a loaded settings value.
pub fn endpoint_or_default(loaded: String) -> (r: String)
    ensures
        r@ == endpoint_or_default_spec(loaded@),
{
    if trim_ws(loaded.as_str()).is_empty() {
        String::from_str("https://ebook-image-forge.mikegyver.workers.dev/api/generate")
    } else {
        loaded
    }
}

} // verus!
