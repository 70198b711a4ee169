//! Installed apps.
use vstd::prelude::*;

verus! {

#[derive(Debug, Clone)]
pub struct App {
    pub api_key: Option<String>,
    pub developer_name: Option<String>,
    pub handle: Option<String>,
}

} // verus!
