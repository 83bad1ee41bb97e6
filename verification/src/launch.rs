//! Running an application whose entry point lives in the reloadable library:
//! the build output is copied, the copy is opened, and the entry point is
//! looked up in it and called. The host does each of these, and asks after
//! each how to go on.

use crate::paths::{resolve, str_text_of, text_of, LibPathSet, LibPathSetView, Platform};
use crate::text::concat2;
use crate::trampoline::{missing_symbol_message, missing_symbol_prefix};
use vstd::prelude::*;

verus! {

/// What a launch works with.
#[derive(Clone, Debug)]
pub struct LaunchPlan {
    /// The build output to copy from.
    pub lib_file: String,
    /// The copy to make and open.
    pub main_in_use_file: String,
    /// The exported symbol to call.
    pub main_function_name: String,
}

/// The stages of a launch, in the order in which the host goes through them.
#[derive(Clone, Copy, Debug, PartialEq, Eq, Structural)]
pub enum LaunchStage {
    /// Is the build output a regular file?
    FindLibrary,
    /// Copy the build output to the copy's path.
    CopyLibrary,
    /// Open the copy.
    OpenLibrary,
    /// Look the entry point up in the opened copy.
    ResolveMain,
}

/// How a launch goes on after a stage.
#[derive(Debug)]
pub enum LaunchNext {
    /// On to the next stage.
    Proceed,
    /// Call the entry point.
    Call,
    /// Give up without a word.
    Return,
    /// Stop the process with this report.
    Fail(String),
}

/// How the report of a missing build output opens.
pub open spec fn missing_library_prefix() -> Seq<char> {
    "Could not find library file "@
}

/// How the report of a failed copy opens.
pub open spec fn failed_copy_prefix() -> Seq<char> {
    "Could not copy library file "@
}

impl LaunchPlan {
    /// Whether this plan launches `main_function_name` from the library at
    /// `paths`.
    pub open spec fn launches(self, main_function_name: Seq<char>, paths: LibPathSetView) -> bool {
        &&& self.lib_file@ == paths.lib_file()
        &&& self.main_in_use_file@ == paths.main_in_use_file()
        &&& self.main_function_name@ == main_function_name
    }

    /// How the launch goes on after `stage`, as text where it ends in a
    /// report.
    ///
    /// A missing build output, a failed copy and a missing entry point stop
    /// the process. A copy that does not open ends the launch silently.
    pub open spec fn next(self, stage: LaunchStage, succeeded: bool) -> Option<Seq<char>> {
        if succeeded {
            None
        } else {
            match stage {
                LaunchStage::FindLibrary => Some(missing_library_prefix() + self.lib_file@),
                LaunchStage::CopyLibrary => Some(failed_copy_prefix() + self.lib_file@),
                LaunchStage::OpenLibrary => None,
                LaunchStage::ResolveMain => Some(
                    missing_symbol_prefix() + self.main_function_name@,
                ),
            }
        }
    }

    /// How the launch goes on after the host went through `stage`.
    pub fn after(&self, stage: LaunchStage, succeeded: bool) -> (r: LaunchNext)
        ensures
            match r {
                LaunchNext::Proceed => succeeded && stage != LaunchStage::ResolveMain,
                LaunchNext::Call => succeeded && stage == LaunchStage::ResolveMain,
                LaunchNext::Return => !succeeded && stage == LaunchStage::OpenLibrary,
                LaunchNext::Fail(report) => !succeeded && stage != LaunchStage::OpenLibrary
                    && self.next(stage, succeeded) == Some(report@),
            },
    {
        if succeeded {
            match stage {
                LaunchStage::ResolveMain => LaunchNext::Call,
                _ => LaunchNext::Proceed,
            }
        } else {
            match stage {
                LaunchStage::FindLibrary => LaunchNext::Fail(
                    concat2("Could not find library file ", self.lib_file.as_str()),
                ),
                LaunchStage::CopyLibrary => LaunchNext::Fail(
                    concat2("Could not copy library file ", self.lib_file.as_str()),
                ),
                LaunchStage::OpenLibrary => LaunchNext::Return,
                LaunchStage::ResolveMain => LaunchNext::Fail(
                    missing_symbol_message(self.main_function_name.as_str()),
                ),
            }
        }
    }
}

/// Plans the launch of `main_function_name` from the library named
/// `library_name`, or named after the executable where no name is given.
/// There is no plan, and nothing to do, when the executable's path is unknown
/// or names no file.
pub fn dyn_load_main(
    main_function_name: &str,
    library_name: Option<String>,
    executable: Option<&str>,
    platform: Platform,
) -> (r: Option<LaunchPlan>)
    ensures
        match resolve(text_of(library_name), str_text_of(executable), platform) {
            None => r is None,
            Some(paths) => r is Some && r->0.launches(main_function_name@, paths),
        },
{
    match LibPathSet::new(library_name, executable, platform) {
        None => None,
        Some(lib_paths) => Some(
            LaunchPlan {
                lib_file: lib_paths.lib_file_path(),
                main_in_use_file: lib_paths.main_in_use_file_path(),
                main_function_name: String::from_str(main_function_name),
            },
        ),
    }
}

} // verus!
