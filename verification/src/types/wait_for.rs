//! The options of waiting.
use vstd::prelude::*;
use crate::document::NodeId;

verus! {

/// What a caller may set of waiting; a field left `None` takes its default.
pub struct WaitForOptions {
    /// The element that is watched.
    pub container: Option<NodeId>,
    /// How long the waiting goes on; the configuration's time where not set.
    pub timeout: Option<i32>,
    /// The time between two calls of the callback; 50 where not set.
    pub interval: Option<i32>,
}

impl Default for WaitForOptions {
    /// Nothing set.
    fn default() -> (r: Self)
        ensures
            r == (WaitForOptions { container: None, timeout: None, interval: None }),
    {
        WaitForOptions::new()
    }
}

impl WaitForOptions {
    pub fn new() -> (r: Self)
        ensures
            r == (WaitForOptions { container: None, timeout: None, interval: None }),
    {
        WaitForOptions { container: None, timeout: None, interval: None }
    }

    pub fn container(self, value: NodeId) -> (r: Self)
        ensures
            r == (Self { container: Some(value), ..self }),
    {
        let mut r = self;
        r.container = Some(value);
        r
    }

    pub fn timeout(self, value: i32) -> (r: Self)
        ensures
            r == (Self { timeout: Some(value), ..self }),
    {
        let mut r = self;
        r.timeout = Some(value);
        r
    }

    pub fn interval(self, value: i32) -> (r: Self)
        ensures
            r == (Self { interval: Some(value), ..self }),
    {
        let mut r = self;
        r.interval = Some(value);
        r
    }
}

} // verus!
