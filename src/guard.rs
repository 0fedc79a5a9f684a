use vstd::prelude::*;
use crate::config::{ConfigWrite, DEFAULT_MODE_CONFIG};

verus! {

/// Scoped responsibility for putting the shared configuration file back
/// into its default mode. Creating a guard performs no I/O: it records the
/// path of a file that has already been placed into build mode. Its release
/// hands out the restoring write once, and never again.
pub struct ConfigGuard {
    path: String,
    released: bool,
}

impl ConfigGuard {
    pub closed spec fn path_view(&self) -> Seq<char> {
        self.path@
    }

    pub closed spec fn is_released(&self) -> bool {
        self.released
    }

    pub fn new(path: String) -> (r: Self)
        ensures
            r.path_view() == path@,
            !r.is_released(),
    {
        ConfigGuard { path, released: false }
    }

    pub fn path(&self) -> (r: &str)
        ensures
            r@ == self.path_view(),
    {
        self.path.as_str()
    }

    pub fn released(&self) -> (r: bool)
        ensures
            r == self.is_released(),
    {
        self.released
    }

    /// The write that restores default mode, the first time only.
    pub fn release(&mut self) -> (r: Option<ConfigWrite>)
        ensures
            final(self).path_view() == old(self).path_view(),
            final(self).is_released(),
            old(self).is_released() ==> r is None,
            !old(self).is_released() ==> (r matches Some(w)
                && w@.path == old(self).path_view()
                && w@.contents == DEFAULT_MODE_CONFIG@),
    {
        if self.released {
            None
        } else {
            self.released = true;
            Some(ConfigWrite { path: self.path.clone(), contents: String::from_str(DEFAULT_MODE_CONFIG) })
        }
    }
}

} // verus!
