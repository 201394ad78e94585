//! The README of the project as a root.
use vstd::prelude::*;
use crate::roots::RootsError;
use crate::schema::{ListRootsResult, Root};

verus! {

/// A root exposing the Bioma README.
#[derive(Debug, Clone, Copy, PartialEq, Eq)]
pub struct Readme;

impl Readme {
    /// The single root `readme` at `file:///bioma/README.md`.
    pub fn list_roots(&self) -> (r: Result<ListRootsResult, RootsError>)
        ensures
            r matches Ok(res) && res.roots.len() == 1
                && (res.roots@[0].name matches Some(n) && n@ == "readme"@)
                && res.roots@[0].uri@ == "file:///bioma/README.md"@,
    {
        Ok(ListRootsResult {
            roots: vec![Root { name: Some("readme".to_owned()), uri: "file:///bioma/README.md".to_owned() }],
        })
    }
}

} // verus!
