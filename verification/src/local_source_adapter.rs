use vstd::prelude::*;

verus! {

/// The loopback transport adapter: its stream already carries linear PCM
/// sample arrays, so it has no decoding of its own. The socket handling
/// lives with the host program.
#[derive(Debug, Clone)]
pub struct LocalAdapter;

impl LocalAdapter {
    pub fn new() -> (r: Self)
        ensures
            r == LocalAdapter,
    {
        Self {  }
    }
}

} // verus!
