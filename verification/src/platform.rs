//! The naming conventions of the platforms a host may run on.

use vstd::prelude::*;
use crate::utils::concat_text;

verus! {

/// The platform families whose library naming the runtime knows.
#[derive(Debug, Clone, Copy, PartialEq, Eq, Structural)]
pub enum Platform {
    Windows,
    MacOs,
    /// Every other Unix-like system.
    Unix,
}

impl Platform {
    /// The file name under which a backend library of the logical name
    /// `name` is shipped: `<name>.dll`, `lib<name>.dylib` or `lib<name>.so`.
    pub open spec fn library_file_name_of(self, name: Seq<char>) -> Seq<char> {
        match self {
            Platform::Windows => name + ".dll"@,
            Platform::MacOs => "lib"@ + name + ".dylib"@,
            Platform::Unix => "lib"@ + name + ".so"@,
        }
    }

    /// Applies the platform's library naming convention to the logical name
    /// that a descriptor declares.
    pub fn library_file_name(self, name: &str) -> (file_name: String)
        ensures
            file_name@ == self.library_file_name_of(name@),
    {
        match self {
            Platform::Windows => concat_text(name, ".dll"),
            Platform::MacOs => {
                let mut file_name = concat_text("lib", name);
                file_name.append(".dylib");
                file_name
            },
            Platform::Unix => {
                let mut file_name = concat_text("lib", name);
                file_name.append(".so");
                file_name
            },
        }
    }

    /// The character the platform puts between path components.
    pub open spec fn separator_of(self) -> char {
        match self {
            Platform::Windows => '\\',
            _ => '/',
        }
    }

    /// The character the platform puts between path components: a backslash
    /// on Windows, a slash elsewhere.
    pub fn separator(self) -> (separator: char)
        ensures
            separator == self.separator_of(),
    {
        match self {
            Platform::Windows => '\\',
            _ => '/',
        }
    }
}

} // verus!
