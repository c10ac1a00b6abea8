//! What the inventory asks of the platform beyond `PlatformAdapter`, and the tally a
//! platform keeps while it measures how much space a file tree takes.

use vstd::prelude::*;
use crate::platform::{ApplicationDataRoot, EntryMetadata, EntryType, FileIdentity, PlatformAdapter, PlatformError};

verus! {

/// The platform services the application inventory uses. Each reports what it finds on
/// this machine at the moment of the call.
pub trait ApplicationPlatform: PlatformAdapter {
    // What the platform reported, as relations between a call's arguments and its result;
    // a platform that states nothing of itself leaves each of them open.

    /// The platform reported `r` as the installed application bundles.
    closed spec fn reports_bundles(&self, r: Result<Vec<String>, PlatformError>) -> bool {
        true
    }

    /// The platform reported `r` as the per-user data roots.
    closed spec fn reports_data_roots(&self, r: Result<Vec<ApplicationDataRoot>, PlatformError>) -> bool {
        true
    }

    /// The platform reported `r` as the frameworks shipped inside the bundle at `path`.
    closed spec fn reports_shared_components(&self, path: Seq<char>, r: Result<Vec<String>, PlatformError>) -> bool {
        true
    }

    /// The platform reported whether the application installed at `path` runs.
    closed spec fn reports_running(&self, path: Seq<char>, r: bool) -> bool {
        true
    }

    /// The platform reported whether the current user owns the entry at `path`.
    closed spec fn reports_owned(&self, path: Seq<char>, r: bool) -> bool {
        true
    }

    /// The platform reported whether something is at `path`.
    closed spec fn reports_entry_exists(&self, path: Seq<char>, r: bool) -> bool {
        true
    }

    /// The platform reported `r` as the listing of the directory at `path`.
    closed spec fn reports_listing(&self, path: Seq<char>, r: Result<Vec<String>, PlatformError>) -> bool {
        true
    }

    /// The platform reported `r` as the footprint of the tree at `path`.
    closed spec fn reports_footprint(&self, path: Seq<char>, r: Result<u64, PlatformError>) -> bool {
        true
    }

    /// The paths of the installed application bundles.
    fn installed_application_bundles(&self) -> (r: Result<Vec<String>, PlatformError>)
        ensures
            self.reports_bundles(r),
    ;

    /// The per-user directories under which applications keep data.
    fn application_data_roots(&self) -> (r: Result<Vec<ApplicationDataRoot>, PlatformError>)
        ensures
            self.reports_data_roots(r),
    ;

    /// The names of the frameworks shipped inside the bundle at `path`.
    fn application_shared_components(&self, path: &str) -> (r: Result<Vec<String>, PlatformError>)
        ensures
            self.reports_shared_components(path@, r),
    ;

    /// Whether the application installed at `path` is running.
    fn is_application_running(&self, path: &str) -> (r: bool)
        ensures
            self.reports_running(path@, r),
    ;

    /// Whether the current user owns the entry at `path`.
    fn path_is_owned_by_current_user(&self, path: &str) -> (r: bool)
        ensures
            self.reports_owned(path@, r),
    ;

    /// Whether something is at `path`: an entry, or a symbolic link, dangling or not.
    fn entry_exists(&self, path: &str) -> (r: bool)
        ensures
            self.reports_entry_exists(path@, r),
    ;

    /// The paths of the entries of the directory at `path`.
    fn list_directory(&self, path: &str) -> (r: Result<Vec<String>, PlatformError>)
        ensures
            self.reports_listing(path@, r),
    ;

    /// The space the tree at `path` takes on disk, each file counted once however many
    /// links lead to it (see `FootprintTally`).
    fn measure_footprint(&self, path: &str) -> (r: Result<u64, PlatformError>)
        ensures
            self.reports_footprint(path@, r),
    ;
}

/// `a + b`, or `u64::MAX` where that does not fit.
pub open spec fn sat_add(a: u64, b: u64) -> u64 {
    if a + b > u64::MAX {
        u64::MAX
    } else {
        (a + b) as u64
    }
}

/// The identities already counted and the allocated bytes counted so far.
pub struct FootprintTally {
    pub seen: Vec<FileIdentity>,
    pub total: u64,
}

impl FootprintTally {
    pub fn new() -> (t: Self)
        ensures
            t.seen@ == Seq::<FileIdentity>::empty(),
            t.total == 0,
    {
        FootprintTally { seen: Vec::new(), total: 0 }
    }

    /// Counts an entry's allocated size the first time its identity is met, and says
    /// whether the walk should go into it: only a directory met for the first time.
    pub fn visit(&mut self, metadata: &EntryMetadata) -> (descend: bool)
        ensures
            old(self).seen@.contains(metadata.identity) ==> {
                &&& final(self).seen@ == old(self).seen@
                &&& final(self).total == old(self).total
                &&& !descend
            },
            !old(self).seen@.contains(metadata.identity) ==> {
                &&& final(self).seen@ == old(self).seen@.push(metadata.identity)
                &&& final(self).total == sat_add(old(self).total, metadata.allocated_size)
                &&& descend == (metadata.entry_type == EntryType::Directory)
            },
    {
        let mut i: usize = 0;
        while i < self.seen.len()
            invariant
                i <= self.seen@.len(),
                forall|j: int| 0 <= j < i ==> self.seen@[j] != metadata.identity,
            decreases self.seen@.len() - i,
        {
            if self.seen[i] == metadata.identity {
                return false;
            }
            i = i + 1;
        }
        self.seen.push(metadata.identity);
        self.total = self.total.saturating_add(metadata.allocated_size);
        metadata.entry_type == EntryType::Directory
    }
}

} // verus!
