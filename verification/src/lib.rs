pub mod capture;
pub mod engine;
pub mod icon;
pub mod model;
pub mod naming;
pub mod provider;
pub mod store;
pub mod text;

use vstd::prelude::*;

verus! {

/// An opaque reference to a native window, carried as a raw address.
/// The null handle (address zero) never refers to a window.
#[derive(Clone, Copy, Debug)]
pub struct WindowHandle {
    pub raw: usize,
}

impl WindowHandle {
    pub open spec fn spec_is_null(&self) -> bool {
        self.raw == 0
    }

    #[verifier::when_used_as_spec(spec_is_null)]
    pub fn is_null(&self) -> (r: bool)
        ensures
            r == self.spec_is_null(),
    {
        self.raw == 0
    }
}

} // verus!
