//! The failures that the runtime reports. None of them is fatal to the host:
//! each is a value handed back to the caller.

use vstd::prelude::*;

verus! {

/// A failure of one loaded-plugin wrapper.
#[derive(Debug, PartialEq, Eq)]
pub enum PluginError {
    /// The loader could not map the library file; `reason` is its message.
    LoadError { reason: String },
    /// The library does not export `symbol`.
    SymbolError { symbol: String },
    /// The init entry point returned the nonzero status `code`.
    InitError { code: i32 },
    /// The cleanup entry point returned the nonzero status `code`.
    CleanupError { code: i32 },
    /// The wrapper holds no library handle.
    NotLoaded,
    /// The descriptor declares no backend.
    NoBackend,
    /// The descriptor declares a backend but does not name its library.
    NameMissing,
}

/// Mathematical value of a [`PluginError`].
pub enum PluginErrorView {
    LoadError { reason: Seq<char> },
    SymbolError { symbol: Seq<char> },
    InitError { code: i32 },
    CleanupError { code: i32 },
    NotLoaded,
    NoBackend,
    NameMissing,
}

impl View for PluginError {
    type V = PluginErrorView;

    open spec fn view(&self) -> PluginErrorView {
        match self {
            PluginError::LoadError { reason } => PluginErrorView::LoadError { reason: reason@ },
            PluginError::SymbolError { symbol } => PluginErrorView::SymbolError { symbol: symbol@ },
            PluginError::InitError { code } => PluginErrorView::InitError { code: *code },
            PluginError::CleanupError { code } => PluginErrorView::CleanupError { code: *code },
            PluginError::NotLoaded => PluginErrorView::NotLoaded,
            PluginError::NoBackend => PluginErrorView::NoBackend,
            PluginError::NameMissing => PluginErrorView::NameMissing,
        }
    }
}

/// A failure of a registry operation.
#[derive(Debug, PartialEq, Eq)]
pub enum RegistryError {
    /// A plugin with this id is registered already.
    AlreadyLoaded { id: String },
    /// No plugin with this id is registered.
    NotLoaded { id: String },
    /// Neither search location holds the library file of this name.
    LibraryNotFound { file_name: String },
    /// The plugin's own wrapper failed.
    Plugin(PluginError),
}

/// Mathematical value of a [`RegistryError`].
pub enum RegistryErrorView {
    AlreadyLoaded { id: Seq<char> },
    NotLoaded { id: Seq<char> },
    LibraryNotFound { file_name: Seq<char> },
    Plugin(PluginErrorView),
}

impl View for RegistryError {
    type V = RegistryErrorView;

    open spec fn view(&self) -> RegistryErrorView {
        match self {
            RegistryError::AlreadyLoaded { id } => RegistryErrorView::AlreadyLoaded { id: id@ },
            RegistryError::NotLoaded { id } => RegistryErrorView::NotLoaded { id: id@ },
            RegistryError::LibraryNotFound { file_name } => RegistryErrorView::LibraryNotFound {
                file_name: file_name@,
            },
            RegistryError::Plugin(error) => RegistryErrorView::Plugin(error@),
        }
    }
}

/// A failure while a plugin archive is read, installed or removed.
#[derive(Debug, Clone, Copy, PartialEq, Eq, Structural)]
pub enum InstallError {
    /// The bytes are not an archive that can be opened.
    ArchiveUnreadable,
    /// No entry of the archive is a descriptor file.
    MetadataNotFound,
    /// The descriptor entry was found but its contents could not be read.
    MetadataUnreadable,
    /// The descriptor's contents are not a valid plugin descriptor.
    MetadataInvalid,
    /// The entry at `index` could not be read from the archive.
    EntryUnreadable { index: usize },
    /// The plugin was unloaded but its directory could not be deleted.
    DirectoryRemovalFailed,
}

} // verus!
