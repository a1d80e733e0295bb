//! The loaded-plugin wrapper: one descriptor together with the handle of its
//! library, if one is mapped.
//!
//! The wrapper owns the handle. It never calls into the library itself: the
//! host opens the file and runs the entry points, and tells the wrapper what
//! came of it. The wrapper decides what that means, keeps or releases the
//! handle, and names the symbols that the host is to resolve.

use vstd::prelude::*;
use libloading::Library;
use crate::error::{PluginError, PluginErrorView};
use crate::types::{PluginMetadata, PluginMetadataView, PLUGIN_CLEANUP_SUFFIX, PLUGIN_INIT_FUNCTION_NAME};
use crate::utils::concat_text;

verus! {

/// The handle of a mapped dynamic library, `libloading::Library`. The runtime
/// keeps, moves and drops such a handle and never looks inside; dropping it
/// unmaps the library.
#[verifier::external_type_specification]
#[verifier::external_body]
pub struct ExLibrary(Library);

/// The number of arguments as a plugin function takes it, beside the pointer
/// to the arguments: the length of the list as a 32-bit integer. A list too
/// long for that count cannot be passed.
pub fn argument_count(args: &[i32]) -> (count: Option<i32>)
    ensures
        count == (if args.len() <= i32::MAX {
            Some(args.len() as i32)
        } else {
            None
        }),
{
    if args.len() <= i32::MAX as usize {
        Some(args.len() as i32)
    } else {
        None
    }
}

/// A plugin as the registry holds it.
pub struct Plugin {
    /// The plugin's descriptor.
    pub metadata: PluginMetadata,
    /// The handle of the plugin's library; `None` before the first load and
    /// after an unload.
    pub library: Option<Library>,
}

impl Plugin {
    /// The wrapper holds a library handle.
    pub open spec fn is_loaded(&self) -> bool {
        self.library is Some
    }

    /// What a load attempt comes to. `opened` is what the loader returned for
    /// the library file and `init` the status that the init entry point
    /// returned, `None` if the library does not export it. The init entry
    /// point counts only for a plugin that declares a backend.
    pub open spec fn load_outcome(
        has_backend: bool,
        opened: Result<Library, String>,
        init: Option<i32>,
    ) -> Result<Library, PluginErrorView> {
        match opened {
            Err(reason) => Err(PluginErrorView::LoadError { reason: reason@ }),
            Ok(library) => if !has_backend {
                Ok(library)
            } else {
                match init {
                    None => Err(
                        PluginErrorView::SymbolError { symbol: PLUGIN_INIT_FUNCTION_NAME@ },
                    ),
                    Some(code) => if code != 0 {
                        Err(PluginErrorView::InitError { code })
                    } else {
                        Ok(library)
                    },
                }
            },
        }
    }

    /// The name of the cleanup entry point of a backend: the declared library
    /// name, or `plugin` where none is declared, followed by the cleanup
    /// suffix.
    pub open spec fn cleanup_symbol_of(metadata: PluginMetadataView) -> Seq<char> {
        (match metadata.backend_lib {
            Some(name) => name,
            None => "plugin"@,
        }) + PLUGIN_CLEANUP_SUFFIX@
    }

    /// The cleanup entry point that the host is to run before this wrapper is
    /// unloaded: none unless a handle is held and a backend declared.
    pub open spec fn cleanup_request(&self) -> Option<Seq<char>> {
        if self.is_loaded() && self.metadata.has_backend {
            Some(Self::cleanup_symbol_of(self.metadata@))
        } else {
            None
        }
    }

    /// What an unload comes to. `cleanup` is the status that the cleanup
    /// entry point returned, `None` if it was not run or is not exported.
    pub open spec fn unload_outcome(&self, cleanup: Option<i32>) -> Result<(), PluginErrorView> {
        if self.is_loaded() && self.metadata.has_backend && cleanup is Some && cleanup->0 != 0 {
            Err(PluginErrorView::CleanupError { code: cleanup->0 })
        } else {
            Ok(())
        }
    }

    /// The symbol behind `function_name`, or the reason why this plugin has
    /// no function to call: `<backend_lib>_<function_name>` for a loaded
    /// plugin with a named backend.
    pub open spec fn symbol_outcome(&self, function_name: Seq<char>) -> Result<
        Seq<char>,
        PluginErrorView,
    > {
        if !self.is_loaded() {
            Err(PluginErrorView::NotLoaded)
        } else if !self.metadata.has_backend {
            Err(PluginErrorView::NoBackend)
        } else {
            match self.metadata.backend_lib {
                None => Err(PluginErrorView::NameMissing),
                Some(name) => Ok(name@ + "_"@ + function_name),
            }
        }
    }

    /// What a call of `function_name` comes to. `returned` is what the
    /// function returned, `None` if the library does not export its symbol.
    pub open spec fn call_outcome(&self, function_name: Seq<char>, returned: Option<i32>) -> Result<
        i32,
        PluginErrorView,
    > {
        match self.symbol_outcome(function_name) {
            Err(error) => Err(error),
            Ok(symbol) => match returned {
                None => Err(PluginErrorView::SymbolError { symbol }),
                Some(value) => Ok(value),
            },
        }
    }

    /// A wrapper for `metadata` that holds no library yet.
    pub fn new(metadata: PluginMetadata) -> (plugin: Plugin)
        ensures
            plugin.metadata == metadata,
            plugin.library is None,
    {
        Plugin { metadata, library: None }
    }

    /// The init entry point that the host is to run once it has mapped the
    /// library: the fixed init symbol for a plugin that declares a backend,
    /// none otherwise.
    pub fn init_symbol(&self) -> (symbol: Option<&'static str>)
        ensures
            self.metadata.has_backend ==> symbol == Some(PLUGIN_INIT_FUNCTION_NAME),
            !self.metadata.has_backend ==> symbol is None,
    {
        if self.metadata.has_backend {
            Some(PLUGIN_INIT_FUNCTION_NAME)
        } else {
            None
        }
    }

    /// Takes in the result of a load attempt. On success the handle is kept,
    /// in place of any handle held before. On every failure the wrapper is
    /// left as it was and the handle that came with the attempt, if any, is
    /// released at once.
    pub fn load(&mut self, opened: Result<Library, String>, init: Option<i32>) -> (result: Result<
        (),
        PluginError,
    >)
        ensures
            final(self).metadata == old(self).metadata,
            match Self::load_outcome(old(self).metadata.has_backend, opened, init) {
                Ok(library) => result is Ok && final(self).library == Some(library),
                Err(error) => result is Err && result->Err_0@ == error && final(self).library == old(
                    self,
                ).library,
            },
    {
        match opened {
            Err(reason) => Err(PluginError::LoadError { reason }),
            Ok(library) => {
                if self.metadata.has_backend {
                    match init {
                        None => {
                            return Err(
                                PluginError::SymbolError {
                                    symbol: String::from_str(PLUGIN_INIT_FUNCTION_NAME),
                                },
                            );
                        },
                        Some(code) => {
                            if code != 0 {
                                return Err(PluginError::InitError { code });
                            }
                        },
                    }
                }
                self.library = Some(library);
                Ok(())
            },
        }
    }

    /// The cleanup entry point that the host is to run before it calls
    /// [`Plugin::unload`], if there is one to run.
    pub fn cleanup_symbol(&self) -> (symbol: Option<String>)
        ensures
            symbol.deep_view() == self.cleanup_request(),
    {
        if self.library.is_some() && self.metadata.has_backend {
            let symbol = match &self.metadata.backend_lib {
                Some(name) => concat_text(name.as_str(), PLUGIN_CLEANUP_SUFFIX),
                None => concat_text("plugin", PLUGIN_CLEANUP_SUFFIX),
            };
            Some(symbol)
        } else {
            None
        }
    }

    /// Releases the handle, whatever the cleanup entry point returned: a
    /// nonzero status is reported and the handle is gone all the same. A
    /// wrapper without a handle is left as it is, and a second unload is
    /// harmless.
    pub fn unload(&mut self, cleanup: Option<i32>) -> (result: Result<(), PluginError>)
        ensures
            final(self).metadata == old(self).metadata,
            final(self).library is None,
            match old(self).unload_outcome(cleanup) {
                Ok(_) => result is Ok,
                Err(error) => result is Err && result->Err_0@ == error,
            },
    {
        let failed = match cleanup {
            Some(code) => self.library.is_some() && self.metadata.has_backend && code != 0,
            None => false,
        };
        self.library = None;
        match cleanup {
            Some(code) => if failed {
                Err(PluginError::CleanupError { code })
            } else {
                Ok(())
            },
            None => Ok(()),
        }
    }

    /// The symbol that the host is to resolve for `function_name`.
    pub fn function_symbol(&self, function_name: &str) -> (result: Result<String, PluginError>)
        ensures
            match self.symbol_outcome(function_name@) {
                Ok(symbol) => result is Ok && result->Ok_0@ == symbol,
                Err(error) => result is Err && result->Err_0@ == error,
            },
    {
        if self.library.is_none() {
            return Err(PluginError::NotLoaded);
        }
        if !self.metadata.has_backend {
            return Err(PluginError::NoBackend);
        }
        match &self.metadata.backend_lib {
            None => Err(PluginError::NameMissing),
            Some(name) => {
                let mut symbol = concat_text(name.as_str(), "_");
                symbol.append(function_name);
                Ok(symbol)
            },
        }
    }

    /// Takes in the result of a call of `function_name`: what the function
    /// returned, or `None` if the host did not find its symbol.
    pub fn call_function(&self, function_name: &str, returned: Option<i32>) -> (result: Result<
        i32,
        PluginError,
    >)
        ensures
            match self.call_outcome(function_name@, returned) {
                Ok(value) => result == Ok::<i32, PluginError>(value),
                Err(error) => result is Err && result->Err_0@ == error,
            },
    {
        let symbol = self.function_symbol(function_name)?;
        match returned {
            None => Err(PluginError::SymbolError { symbol }),
            Some(value) => Ok(value),
        }
    }
}

} // verus!
