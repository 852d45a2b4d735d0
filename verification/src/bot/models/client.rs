use vstd::prelude::*;

verus! {

/// The key under which the bot keeps its repository in the shared client
/// data.
pub struct ClientData;

} // verus!
