//! The session side of the driver boundary: the instance a session descends
//! from, and the capabilities negotiated when the session was created.

use vstd::prelude::*;

verus! {

/// The instance a session descends from: its driver-assigned handle and the
/// extensions negotiated when it was created.
#[derive(Clone, Copy, Debug)]
pub struct Instance {
    /// Opaque, driver-assigned instance handle.
    handle: u64,
    /// Whether the debug-naming extension was negotiated.
    ext_debug_utils: bool,
}

impl Instance {
    pub closed spec fn spec_raw_handle(&self) -> u64 {
        self.handle
    }

    pub closed spec fn spec_has_debug_utils(&self) -> bool {
        self.ext_debug_utils
    }

    pub fn new(handle: u64, ext_debug_utils: bool) -> (r: Instance)
        ensures
            r.spec_raw_handle() == handle,
            r.spec_has_debug_utils() == ext_debug_utils,
    {
        Instance { handle, ext_debug_utils }
    }

    /// The raw instance handle, as the driver assigned it.
    #[verifier::when_used_as_spec(spec_raw_handle)]
    pub fn raw_handle(&self) -> (r: u64)
        ensures
            r == self.spec_raw_handle(),
    {
        self.handle
    }

    /// Whether the debug-naming extension is available on this instance.
    #[verifier::when_used_as_spec(spec_has_debug_utils)]
    pub fn has_debug_utils(&self) -> (r: bool)
        ensures
            r == self.spec_has_debug_utils(),
    {
        self.ext_debug_utils
    }
}

/// A session scoped to an instance. It provides the driver interface to every
/// swapchain derived from it, and outlives them all.
#[derive(Clone, Copy, Debug)]
pub struct Session {
    /// Opaque, driver-assigned session handle.
    handle: u64,
    /// The instance this session descends from.
    instance: Instance,
}

impl Session {
    pub closed spec fn spec_raw_handle(&self) -> u64 {
        self.handle
    }

    pub closed spec fn spec_instance(&self) -> Instance {
        self.instance
    }

    pub fn new(handle: u64, instance: Instance) -> (r: Session)
        ensures
            r.spec_raw_handle() == handle,
            r.spec_instance() == instance,
    {
        Session { handle, instance }
    }

    /// The raw session handle, as the driver assigned it.
    #[verifier::when_used_as_spec(spec_raw_handle)]
    pub fn raw_handle(&self) -> (r: u64)
        ensures
            r == self.spec_raw_handle(),
    {
        self.handle
    }

    /// The instance this session descends from.
    pub fn instance(&self) -> (r: &Instance)
        ensures
            *r == self.spec_instance(),
    {
        &self.instance
    }
}

} // verus!
