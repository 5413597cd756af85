//! Versioned administrative shell of the deployment.
//!
//! Tracks the registered administrator and a code-version number; the code
//! upgrade itself is a host concern and stays outside the engine.

use vstd::prelude::*;
use crate::errors::Error;

verus! {

/// The first version recorded at initialization.
pub const INITIAL_VERSION: u32 = 1;

/// Administrator registration and the current code version.
pub struct GrainlifyContract {
    admin: Option<u64>,
    version: u32,
}

impl GrainlifyContract {
    /// The registered administrator, once initialized.
    pub closed spec fn spec_admin(self) -> Option<u64> {
        self.admin
    }

    /// The recorded code version; zero before initialization.
    pub closed spec fn spec_version(self) -> u32 {
        self.version
    }

    /// An uninitialized shell reporting version zero.
    pub fn new() -> (r: GrainlifyContract)
        ensures
            r.spec_admin() is None,
            r.spec_version() == 0,
    {
        GrainlifyContract { admin: None, version: 0 }
    }

    /// Registers the administrator and the initial version.  Runs once.
    pub fn init(&mut self, admin: u64) -> (r: Result<(), Error>)
        ensures
            r is Ok <==> old(self).spec_admin() is None,
            r is Err ==> r == Err::<(), Error>(Error::AlreadyInitialized) && *final(self) == *old(
                self,
            ),
            r is Ok ==> final(self).spec_admin() == Some(admin) && final(self).spec_version()
                == INITIAL_VERSION,
    {
        if self.admin.is_some() {
            return Err(Error::AlreadyInitialized);
        }
        self.admin = Some(admin);
        self.version = INITIAL_VERSION;
        Ok(())
    }

    /// The recorded code version.
    pub fn get_version(&self) -> (r: u32)
        ensures
            r == self.spec_version(),
    {
        self.version
    }

    /// Records a new code version.  Administrative.
    pub fn set_version(&mut self, caller: u64, new_version: u32) -> (r: Result<(), Error>)
        ensures
            r is Ok <==> old(self).spec_admin() == Some(caller),
            r is Err ==> *final(self) == *old(self),
            r is Err && old(self).spec_admin() is None ==> r == Err::<(), Error>(
                Error::NotInitialized,
            ),
            r is Err && old(self).spec_admin() is Some ==> r == Err::<(), Error>(
                Error::Unauthorized,
            ),
            r is Ok ==> final(self).spec_version() == new_version && final(self).spec_admin()
                == old(self).spec_admin(),
    {
        match self.admin {
            None => Err(Error::NotInitialized),
            Some(a) => {
                if a != caller {
                    return Err(Error::Unauthorized);
                }
                self.version = new_version;
                Ok(())
            },
        }
    }
}

} // verus!
