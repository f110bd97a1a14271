//! The top-level backend facade.
//!
//! One platform backend at a time stands behind this facade; here it
//! is the Linux-subsystem backend, which keeps its container work
//! inside the helper instance that the bootstrap guarantees.

use vstd::prelude::*;

use crate::windows_helper_instance::WindowsHelperInstance;

verus! {

/// The Linux-subsystem platform backend: all its work goes through
/// the helper instance.
pub struct WindowsDockerApi {
    pub windows_helper_instance: WindowsHelperInstance,
}

impl WindowsDockerApi {
    /// Sets up the backend for the given home directory; the helper
    /// bootstrap is not yet begun.
    pub fn new(home_path: &str) -> (r: Self)
        ensures
            r.windows_helper_instance.wf(home_path@),
            r.windows_helper_instance.phase is Unchecked,
    {
        WindowsDockerApi { windows_helper_instance: WindowsHelperInstance::new(home_path) }
    }
}

/// The platform-independent facade over the selected backend.
pub struct DockerApi {
    pub instance: WindowsDockerApi,
}

impl DockerApi {
    /// Selects and sets up the platform backend for the given home
    /// directory.
    pub fn new(home_path: &str) -> (r: Self)
        ensures
            r.instance.windows_helper_instance.wf(home_path@),
            r.instance.windows_helper_instance.phase is Unchecked,
    {
        DockerApi { instance: WindowsDockerApi::new(home_path) }
    }
}

} // verus!
