//! Images.
use vstd::prelude::*;

verus! {

#[derive(Debug, Clone)]
pub struct Image {
    pub alt_text: Option<String>,
    pub url: Option<String>,
}

} // verus!
