//! The navigation bar's url field.
use vstd::prelude::*;

use crate::text::{seq_contains, str_contains};

verus! {

/// Whether the url is shown with a closed lock: it contains `https://`.
pub fn is_secure(url: &str) -> (res: bool)
    ensures
        res == seq_contains(url@, "https://"@),
{
    str_contains(url, "https://")
}

} // verus!
