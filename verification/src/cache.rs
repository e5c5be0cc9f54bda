//! The task cache: where the exported task list is kept and for how long it counts as fresh.
use std::path::PathBuf;
use vstd::prelude::*;

verus! {

/// `std::path::PathBuf`, carried through the library as an opaque value.
#[verifier::external_type_specification]
#[verifier::external_body]
pub struct ExPathBuf(PathBuf);

/// A cache file of exported tasks and the number of seconds it stays valid.
#[derive(Debug)]
pub struct Cache {
    path: PathBuf,
    timeout: u64,
}

impl Cache {
    pub closed spec fn spec_path(&self) -> PathBuf {
        self.path
    }

    pub closed spec fn spec_timeout(&self) -> u64 {
        self.timeout
    }

    /// A cache kept in the file `path`, valid for `timeout` seconds after each write.
    pub fn from_parts(path: PathBuf, timeout: u64) -> (c: Cache)
        ensures
            c.spec_path() == path,
            c.spec_timeout() == timeout,
    {
        Cache { path, timeout }
    }

    /// The cache file.
    pub fn path(&self) -> (p: &PathBuf)
        ensures
            *p == self.spec_path(),
    {
        &self.path
    }

    /// Seconds a write stays valid.
    pub fn timeout(&self) -> (t: u64)
        ensures
            t == self.spec_timeout(),
    {
        self.timeout
    }

    /// Whether a cache file last written `age_secs` seconds ago may still be read:
    /// it may exactly while its age (in whole seconds) is below the timeout.
    pub fn validate_age(&self, age_secs: u64) -> (r: Result<(), String>)
        ensures
            r is Ok <==> age_secs < self.spec_timeout(),
            r matches Err(e) ==> e@ == "Cache invalid - Refresh required"@,
    {
        if age_secs < self.timeout {
            Ok(())
        } else {
            Err(String::from_str("Cache invalid - Refresh required"))
        }
    }
}

} // verus!
