use vstd::prelude::*;

verus! {

/// The connector ids that a display device reports.
///
/// Mirrors the connector list of the kernel's resources query. The caller
/// copies the ids out of the kernel's reply, in the order the kernel gave
/// them, before the reply is released.
pub struct Resources {
    pub connectors: Vec<u32>,
}

impl Resources {
    /// Wraps the connector ids copied out of a resources query.
    pub fn new(connectors: Vec<u32>) -> (r: Resources)
        ensures
            r.connectors@ == connectors@,
    {
        Resources { connectors }
    }

    /// The connector ids, in the order the kernel reported them.
    pub fn connector_ids(&self) -> (r: &Vec<u32>)
        ensures
            r@ == self.connectors@,
    {
        &self.connectors
    }
}

} // verus!
