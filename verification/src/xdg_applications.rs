//! Cache of desktop applications known to the session. Looking applications
//! up by window class goes through the desktop-file machinery of the
//! embedding application; the cache itself starts empty.

use vstd::prelude::*;

verus! {

/// One desktop application entry.
struct XdgApplication {
    name: String,
    file_path: String,
    icon: String,
    exec_command: String,
}

pub struct XdgApplicationsCache {
    applications: Vec<XdgApplication>,
}

impl XdgApplicationsCache {
    /// How many applications the cache holds.
    pub closed spec fn len(self) -> nat {
        self.applications@.len()
    }

    /// An empty cache.
    pub fn new() -> (r: Self)
        ensures
            r.len() == 0,
    {
        XdgApplicationsCache { applications: Vec::new() }
    }
}

} // verus!
