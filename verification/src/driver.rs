//! Options of a compilation and the driver that holds them.
use vstd::prelude::*;

use std::path::PathBuf;

verus! {

/// What a compilation is asked to do: the file it starts from.
#[derive(Debug)]
pub struct CompilerOptions {
    root_file_path: PathBuf,
}

impl CompilerOptions {
    /// Options that start from the file at `root_file_path`.
    pub fn new(root_file_path: PathBuf) -> (o: CompilerOptions)
        ensures
            o.root_file_path_spec() == root_file_path,
    {
        CompilerOptions { root_file_path }
    }

    /// The file the compilation starts from.
    pub closed spec fn root_file_path_spec(&self) -> PathBuf {
        self.root_file_path
    }

    /// The file the compilation starts from.
    pub fn root_file_path(&self) -> (p: &PathBuf)
        ensures
            *p == self.root_file_path_spec(),
    {
        &self.root_file_path
    }
}

/// Runs a compilation with the options it was given.
#[derive(Debug)]
pub struct CompilerDriver {
    options: CompilerOptions,
}

impl CompilerDriver {
    /// A driver for `options`.
    pub fn new(options: CompilerOptions) -> (d: CompilerDriver)
        ensures
            d.options_spec() == options,
    {
        CompilerDriver { options }
    }

    /// The options the driver was given.
    pub closed spec fn options_spec(&self) -> CompilerOptions {
        self.options
    }

    /// The options the driver was given.
    pub fn options(&self) -> (o: &CompilerOptions)
        ensures
            *o == self.options_spec(),
    {
        &self.options
    }
}

} // verus!
