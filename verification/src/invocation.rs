//! How a build of the compiler is invoked on a staged file.
//!
//! Both builds are the same program, told apart by a selector token that is
//! its first argument. The compiler is asked for a library, so that nothing
//! is linked.

use crate::outcome::Variant;
use vstd::prelude::*;
use vstd::string::StringExecFns;

verus! {

/// The program that is run for either build.
pub const COMPILER: &'static str = "rustc";

/// The token that selects the baseline build.
pub const BASELINE_SELECTOR: &'static str = "+nightly";

/// The token that selects the candidate build.
pub const CANDIDATE_SELECTOR: &'static str = "+stage1";

/// The flag that asks for a library.
pub const LIBRARY_MODE: &'static str = "--crate-type=lib";

/// The arguments of one compiler run: the build's selector, the library
/// flag, and the path of the staged file.
pub open spec fn arguments_of(variant: Variant, path: Seq<char>) -> Seq<Seq<char>> {
    seq![variant.selector_text(), LIBRARY_MODE@, path]
}

impl Variant {
    /// The token that selects this build.
    pub open spec fn selector_text(self) -> Seq<char> {
        match self {
            Variant::Baseline => BASELINE_SELECTOR@,
            Variant::Candidate => CANDIDATE_SELECTOR@,
        }
    }

    /// The token that selects this build.
    pub fn selector(&self) -> (token: &'static str)
        ensures
            token@ == self.selector_text(),
    {
        match self {
            Variant::Baseline => BASELINE_SELECTOR,
            Variant::Candidate => CANDIDATE_SELECTOR,
        }
    }
}

/// The arguments with which the given build is run on the file at `path`.
pub fn compiler_arguments(variant: Variant, path: &str) -> (arguments: Vec<String>)
    ensures
        arguments.deep_view() == arguments_of(variant, path@),
{
    let mut arguments: Vec<String> = Vec::new();
    arguments.push(String::from_str(variant.selector()));
    arguments.push(String::from_str(LIBRARY_MODE));
    arguments.push(String::from_str(path));
    arguments
}

} // verus!
