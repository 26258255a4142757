//! Who a node is.

use vstd::prelude::*;

verus! {

/// Basic node details.
///
/// These are sent under the names of their fields, not as a wire tuple, so
/// there is no slot order to keep for them.
#[derive(Debug)]
pub struct NodeDetails {
    pub chain: String,
    pub name: String,
    pub implementation: String,
    pub version: String,
    pub validator: Option<String>,
    pub network_id: Option<String>,
    pub startup_time: Option<String>,
}

/// A copy of a string that may be absent.
fn clone_optional(text: &Option<String>) -> (copy: Option<String>)
    ensures
        copy == *text,
{
    match text {
        Some(text) => Some(text.clone()),
        None => None,
    }
}

impl Clone for NodeDetails {
    /// The same details, field for field.
    fn clone(&self) -> (copy: NodeDetails)
        ensures
            copy == *self,
    {
        NodeDetails {
            chain: self.chain.clone(),
            name: self.name.clone(),
            implementation: self.implementation.clone(),
            version: self.version.clone(),
            validator: clone_optional(&self.validator),
            network_id: clone_optional(&self.network_id),
            startup_time: clone_optional(&self.startup_time),
        }
    }
}

} // verus!
