//! The layout of the flat fixture trees that performance measurements walk.

use vstd::prelude::*;

verus! {

/// How a flat fixture of `files` entries is laid out: up to a thousand directories, and
/// the remaining entries as files, a thousand to a directory.
pub open spec fn flat_layout(files: nat) -> (nat, nat) {
    let directories = if files < 1000 { files } else { 1000 };
    (directories, (files - directories) as nat)
}

/// The directory a fixture file goes into.
pub open spec fn flat_file_directory(file: nat) -> nat {
    file / 1000
}

pub fn flat_fixture_layout(files: usize) -> (r: (usize, usize))
    ensures
        (r.0 as nat, r.1 as nat) == flat_layout(files as nat),
        r.0 + r.1 == files,
{
    let directories: usize = if files < 1000 { files } else { 1000 };
    (directories, files - directories)
}

pub fn flat_fixture_directory(file: usize) -> (d: usize)
    ensures
        d == flat_file_directory(file as nat),
{
    file / 1000
}

} // verus!
