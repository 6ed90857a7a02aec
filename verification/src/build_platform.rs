//! Built images.

use vstd::prelude::*;

verus! {

/// A built image and the registry it is kept in.
#[derive(Debug, PartialEq, Eq)]
pub struct Image {
    pub application_id: String,
    pub name: String,
    pub tag: String,
    pub commit_id: String,
    pub registry_name: Option<String>,
    pub registry_secret: Option<String>,
    pub registry_url: Option<String>,
}

} // verus!
