//! The remote event feed endpoint.
//!
//! The transport behind it is outside this core; the verified engine only
//! needs a handle to decide whether a publisher joins the responder set,
//! and the publisher itself records which states it announced.

use vstd::prelude::*;

verus! {

/// A handle to the external event feed. The verified core reads no data
/// from it; it only matters whether a session holds one.
pub struct Server {}

impl Server {
    /// A handle to the event feed.
    pub fn new() -> Server {
        Server {  }
    }
}

} // verus!
