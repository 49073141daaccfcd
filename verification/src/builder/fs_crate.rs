use crate::builder::native::{module_crate, module_functions, module_marked, module_with_crate};
use crate::text::text_eq;
use vstd::prelude::*;

verus! {

/// What the script can ask of the file system.
#[derive(Debug, Clone, Copy, PartialEq, Eq, Structural)]
pub enum FileSystemFunction {
    /// Read a file fully into a string.
    Read,
    /// Write a string fully to a file.
    Write,
}

/// The function of the file system module that `name` names, if any.
pub open spec fn file_system_function_named(name: Seq<char>) -> Option<FileSystemFunction> {
    if name == "read"@ {
        Some(FileSystemFunction::Read)
    } else if name == "write"@ {
        Some(FileSystemFunction::Write)
    } else {
        None
    }
}

/// Rune module dedicated towards File System operations.
pub struct FileSystemCrate;

impl FileSystemCrate {
    /// The name of the module in the script's scope.
    pub fn crate_name() -> (name: &'static str)
        ensures
            name@ == "FileSystem"@,
    {
        "FileSystem"
    }

    /// Builds the File System Module: a module for the crate `FileSystem`
    /// that offers nothing yet, to which the caller adds the functions that
    /// read and write. It fails where rune cannot allocate.
    pub fn build() -> (module: Result<rune::Module, rune::ContextError>)
        ensures
            module matches Ok(m) ==> module_crate(m) == "FileSystem"@ && module_functions(m).len()
                == 0 && !module_marked(m),
    {
        proof {
            reveal_strlit("FileSystem");
        }
        module_with_crate(Self::crate_name())
    }

    /// The name under which the script finds `function`.
    pub fn name(function: FileSystemFunction) -> (name: &'static str)
        ensures
            file_system_function_named(name@) == Some(function),
    {
        proof {
            reveal_strlit("read");
            reveal_strlit("write");
            assert("read"@.len() != "write"@.len());
        }
        match function {
            FileSystemFunction::Read => "read",
            FileSystemFunction::Write => "write",
        }
    }

    /// The function that the script means by `name`.
    pub fn lookup(name: &str) -> (function: Option<FileSystemFunction>)
        ensures
            function == file_system_function_named(name@),
    {
        if text_eq(name, "read") {
            Some(FileSystemFunction::Read)
        } else if text_eq(name, "write") {
            Some(FileSystemFunction::Write)
        } else {
            None
        }
    }
}

} // verus!
