//! The doodle record the companion CRUD service stores and retrieves: a
//! name, a description, and the captured canvas image as base64 text.
//! Routing, database access and templating around it are external
//! collaborators.

use vstd::prelude::*;

verus! {

/// One stored doodle.
#[derive(Clone, Debug)]
pub struct DoodleEntry {
    pub name: String,
    pub description: String,
    pub data: String,
}

impl DoodleEntry {
    /// Builds the record for a doodle whose captured image is `data`.
    pub fn new(name: String, description: String, data: String) -> (r: DoodleEntry)
        ensures
            r.name == name,
            r.description == description,
            r.data == data,
    {
        DoodleEntry { name, description, data }
    }
}

} // verus!
