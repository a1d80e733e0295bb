//! The registry of loaded plugins: at most one wrapper per plugin id.
//!
//! Every operation is one step from the registry before to the registry
//! after. Where an operation needs work that only the host can do (finding
//! and opening a library file, running an entry point), the registry first
//! says what is to be done and then takes in a report of what happened.

use vstd::prelude::*;
use libloading::Library;
use crate::error::{PluginError, PluginErrorView, RegistryError, RegistryErrorView};
use crate::platform::Platform;
use crate::plugin::Plugin;
use crate::types::{PluginMetadata, PluginMetadataView, PLUGIN_INIT_FUNCTION_NAME};
use crate::utils::same_text;

verus! {

/// One place in which the host is to look for a library file.
#[derive(Debug, PartialEq, Eq)]
pub struct LibraryLocation {
    /// Directory below the plugin root, or `None` for the plugin root itself.
    pub subdirectory: Option<String>,
    /// Name of the library file.
    pub file_name: String,
}

/// Mathematical value of a [`LibraryLocation`].
pub struct LibraryLocationView {
    pub subdirectory: Option<Seq<char>>,
    pub file_name: Seq<char>,
}

impl View for LibraryLocation {
    type V = LibraryLocationView;

    open spec fn view(&self) -> LibraryLocationView {
        LibraryLocationView {
            subdirectory: self.subdirectory.deep_view(),
            file_name: self.file_name@,
        }
    }
}

impl DeepView for LibraryLocation {
    type V = LibraryLocationView;

    open spec fn deep_view(&self) -> LibraryLocationView {
        self@
    }
}

/// What the host is to do for a plugin that brings a backend: open the
/// library at the first of `locations` that exists, then run `init_symbol`.
#[derive(Debug, PartialEq, Eq)]
pub struct LoadPlan {
    /// The places to search, in the order in which they are to be tried.
    pub locations: Vec<LibraryLocation>,
    /// The init entry point of the library.
    pub init_symbol: &'static str,
}

impl LoadPlan {
    /// Picks the location to open, given for each location, in their order,
    /// whether the library file is present there: the first at which it is.
    /// `None` if it is present at none of them; a location for which
    /// `present` says nothing counts as one without the file.
    pub fn first_present(&self, present: &[bool]) -> (chosen: Option<usize>)
        ensures
            match chosen {
                Some(index) => index < self.locations.len() && index < present.len()
                    && present[index as int] && forall|earlier: int|
                    0 <= earlier < index ==> !present[earlier],
                None => forall|index: int|
                    0 <= index < self.locations.len() && index < present.len() ==> !present[index],
            },
    {
        let mut index: usize = 0;
        while index < self.locations.len() && index < present.len()
            invariant
                forall|earlier: int| 0 <= earlier < index ==> !present[earlier],
            decreases present.len() - index,
        {
            if present[index] {
                return Some(index);
            }
            index += 1;
        }
        None
    }
}

/// What the host found when it carried out a [`LoadPlan`].
pub enum LoadReport {
    /// No library was opened: none of the locations holds the file, or the
    /// plugin has no backend and nothing was sought.
    NoLibrary,
    /// The file was found, and the loader refused it for `reason`.
    OpenFailed { reason: String },
    /// The library is mapped. `init` is the status that its init entry point
    /// returned, `None` if the library does not export it.
    Opened { library: Library, init: Option<i32> },
}

/// A plugin with the id `id` stands in `entries`.
pub open spec fn registered(entries: Seq<Plugin>, id: Seq<char>) -> bool {
    exists|i: int| 0 <= i < entries.len() && (#[trigger] entries[i]).metadata.id@ == id
}

/// No two of `entries` have the same id.
pub open spec fn unique_ids(entries: Seq<Plugin>) -> bool {
    forall|i: int, j: int|
        0 <= i < j < entries.len() ==> (#[trigger] entries[i]).metadata.id@ != (
        #[trigger] entries[j]).metadata.id@
}

/// Every plugin of `entries` holds a library handle exactly when its
/// descriptor declares a backend, and a descriptor that declares one names
/// it.
pub open spec fn handles_match_backends(entries: Seq<Plugin>) -> bool {
    forall|i: int|
        0 <= i < entries.len() ==> ((#[trigger] entries[i]).library is Some
            <==> entries[i].metadata.has_backend) && entries[i].metadata.consistent()
}

/// What the registry keeps at all times: no id stands in it twice, and its
/// plugins hold their handles exactly where they declare a backend.
pub open spec fn valid_registry(entries: Seq<Plugin>) -> bool {
    unique_ids(entries) && handles_match_backends(entries)
}

/// The place in `entries` of the plugin with the id `id`, where there is one.
pub open spec fn position(entries: Seq<Plugin>, id: Seq<char>) -> int {
    choose|i: int| 0 <= i < entries.len() && (#[trigger] entries[i]).metadata.id@ == id
}

/// The descriptors of `entries`, in their order.
pub open spec fn listing(entries: Seq<Plugin>) -> Seq<PluginMetadataView> {
    Seq::new(entries.len(), |i: int| entries[i].metadata@)
}

/// The two places in which the library `file_name` of the plugin `id` is
/// sought: first the plugin's own directory, then the plugin root.
pub open spec fn search_order(id: Seq<char>, file_name: Seq<char>) -> Seq<LibraryLocationView> {
    seq![
        LibraryLocationView { subdirectory: Some(id), file_name },
        LibraryLocationView { subdirectory: None, file_name },
    ]
}

/// What the host is to do before `metadata` can be registered: nothing for a
/// plugin without a backend, else the search for its library. A plugin whose
/// id is registered, or which declares a backend without naming it, is
/// refused before anything is sought.
pub open spec fn load_request(
    entries: Seq<Plugin>,
    platform: Platform,
    metadata: PluginMetadataView,
) -> Result<Option<Seq<LibraryLocationView>>, RegistryErrorView> {
    if registered(entries, metadata.id) {
        Err(RegistryErrorView::AlreadyLoaded { id: metadata.id })
    } else if !metadata.has_backend {
        Ok(None)
    } else {
        match metadata.backend_lib {
            None => Err(RegistryErrorView::Plugin(PluginErrorView::NameMissing)),
            Some(name) => Ok(
                Some(search_order(metadata.id, platform.library_file_name_of(name))),
            ),
        }
    }
}

/// What loading `metadata` comes to, given the host's `report`: the wrapper
/// that joins the registry, or the failure. The report counts only for a
/// plugin that declares a backend.
pub open spec fn load_outcome(
    entries: Seq<Plugin>,
    platform: Platform,
    metadata: PluginMetadata,
    report: LoadReport,
) -> Result<Plugin, RegistryErrorView> {
    match load_request(entries, platform, metadata@) {
        Err(error) => Err(error),
        Ok(None) => Ok(Plugin { metadata, library: None }),
        Ok(Some(locations)) => match report {
            LoadReport::NoLibrary => Err(
                RegistryErrorView::LibraryNotFound { file_name: locations[0].file_name },
            ),
            LoadReport::OpenFailed { reason } => Err(
                RegistryErrorView::Plugin(PluginErrorView::LoadError { reason: reason@ }),
            ),
            LoadReport::Opened { library, init } => match Plugin::load_outcome(
                true,
                Ok(library),
                init,
            ) {
                Ok(kept) => Ok(Plugin { metadata, library: Some(kept) }),
                Err(error) => Err(RegistryErrorView::Plugin(error)),
            },
        },
    }
}

/// The registry after `metadata` was loaded with `report`: one wrapper more
/// on success, unchanged on failure.
pub open spec fn after_load(
    entries: Seq<Plugin>,
    platform: Platform,
    metadata: PluginMetadata,
    report: LoadReport,
) -> Seq<Plugin> {
    match load_outcome(entries, platform, metadata, report) {
        Ok(plugin) => entries.push(plugin),
        Err(_) => entries,
    }
}

/// The cleanup entry point to run before the plugin `id` is unloaded.
pub open spec fn cleanup_request(entries: Seq<Plugin>, id: Seq<char>) -> Result<
    Option<Seq<char>>,
    RegistryErrorView,
> {
    if registered(entries, id) {
        Ok(entries[position(entries, id)].cleanup_request())
    } else {
        Err(RegistryErrorView::NotLoaded { id })
    }
}

/// What unloading the plugin `id` comes to, given the status `cleanup` of its
/// cleanup entry point.
pub open spec fn unload_outcome(entries: Seq<Plugin>, id: Seq<char>, cleanup: Option<i32>) -> Result<
    (),
    RegistryErrorView,
> {
    if registered(entries, id) {
        match entries[position(entries, id)].unload_outcome(cleanup) {
            Ok(_) => Ok(()),
            Err(error) => Err(RegistryErrorView::Plugin(error)),
        }
    } else {
        Err(RegistryErrorView::NotLoaded { id })
    }
}

/// The registry after the plugin `id` was unloaded: without its wrapper,
/// whatever the cleanup returned; unchanged if the id was not registered.
pub open spec fn after_unload(entries: Seq<Plugin>, id: Seq<char>) -> Seq<Plugin> {
    if registered(entries, id) {
        entries.remove(position(entries, id))
    } else {
        entries
    }
}

/// The symbol to resolve for `function_name` of the plugin `id`.
pub open spec fn symbol_outcome(
    entries: Seq<Plugin>,
    id: Seq<char>,
    function_name: Seq<char>,
) -> Result<Seq<char>, RegistryErrorView> {
    if registered(entries, id) {
        match entries[position(entries, id)].symbol_outcome(function_name) {
            Ok(symbol) => Ok(symbol),
            Err(error) => Err(RegistryErrorView::Plugin(error)),
        }
    } else {
        Err(RegistryErrorView::NotLoaded { id })
    }
}

/// What a call of `function_name` of the plugin `id` comes to, given what the
/// function `returned`.
pub open spec fn call_outcome(
    entries: Seq<Plugin>,
    id: Seq<char>,
    function_name: Seq<char>,
    returned: Option<i32>,
) -> Result<i32, RegistryErrorView> {
    if registered(entries, id) {
        match entries[position(entries, id)].call_outcome(function_name, returned) {
            Ok(value) => Ok(value),
            Err(error) => Err(RegistryErrorView::Plugin(error)),
        }
    } else {
        Err(RegistryErrorView::NotLoaded { id })
    }
}

/// With unique ids, the plugin with a given id stands in one place only.
pub proof fn lemma_position(entries: Seq<Plugin>, id: Seq<char>, i: int)
    requires
        unique_ids(entries),
        0 <= i < entries.len(),
        entries[i].metadata.id@ == id,
    ensures
        registered(entries, id),
        position(entries, id) == i,
{
}

/// The table of loaded plugins, the directory below which their files are
/// sought, and the platform whose naming convention applies.
pub struct PluginManager {
    plugins: Vec<Plugin>,
    plugin_dir: String,
    platform: Platform,
}

impl PluginManager {
    /// The wrappers that the registry holds, in the order in which they were
    /// loaded.
    pub closed spec fn entries(&self) -> Seq<Plugin> {
        self.plugins@
    }

    /// The plugin root directory.
    pub closed spec fn directory(&self) -> Seq<char> {
        self.plugin_dir@
    }

    /// The platform whose library naming the registry applies.
    pub closed spec fn naming(&self) -> Platform {
        self.platform
    }

    /// The registry's invariant: an id is registered at most once, and a
    /// plugin holds a handle exactly when it declares a backend.
    #[verifier::type_invariant]
    spec fn well_formed(&self) -> bool {
        valid_registry(self.plugins@)
    }

    /// An empty registry for the plugin root `plugin_dir`.
    pub fn new(plugin_dir: String, platform: Platform) -> (manager: PluginManager)
        ensures
            valid_registry(manager.entries()),
            manager.entries() == Seq::<Plugin>::empty(),
            manager.directory() == plugin_dir@,
            manager.naming() == platform,
    {
        PluginManager { plugins: Vec::new(), plugin_dir, platform }
    }

    /// The plugin root directory.
    pub fn plugin_dir(&self) -> (dir: &str)
        ensures
            dir@ == self.directory(),
    {
        self.plugin_dir.as_str()
    }

    /// The platform whose library naming the registry applies.
    pub fn platform(&self) -> (platform: Platform)
        ensures
            platform == self.naming(),
    {
        self.platform
    }

    /// The place of the plugin `plugin_id` in the table.
    fn find(&self, plugin_id: &str) -> (found: Option<usize>)
        ensures
            match found {
                Some(i) => registered(self.entries(), plugin_id@) && i == position(
                    self.entries(),
                    plugin_id@,
                ) && i < self.entries().len() && self.entries()[i as int].metadata.id@
                    == plugin_id@,
                None => !registered(self.entries(), plugin_id@),
            },
    {
        proof {
            use_type_invariant(self);
        }
        let mut i: usize = 0;
        while i < self.plugins.len()
            invariant
                unique_ids(self.plugins@),
                i <= self.plugins.len(),
                forall|j: int| 0 <= j < i ==> (#[trigger] self.plugins@[j]).metadata.id@ != plugin_id@,
            decreases self.plugins.len() - i,
        {
            if same_text(self.plugins[i].metadata.id.as_str(), plugin_id) {
                proof {
                    lemma_position(self.entries(), plugin_id@, i as int);
                }
                return Some(i);
            }
            i += 1;
        }
        None
    }

    /// Tells whether a plugin with this id is registered.
    pub fn is_registered(&self, plugin_id: &str) -> (found: bool)
        ensures
            found == registered(self.entries(), plugin_id@),
    {
        self.find(plugin_id).is_some()
    }

    /// Says what the host is to do before it calls
    /// [`PluginManager::load_plugin`] for `metadata`: `None` if nothing is
    /// to be opened, else where to look for the library and which entry
    /// point to run. Fails as `load_plugin` will fail whatever the host
    /// reports.
    pub fn plan_load(&self, metadata: &PluginMetadata) -> (result: Result<
        Option<LoadPlan>,
        RegistryError,
    >)
        ensures
            match load_request(self.entries(), self.naming(), metadata@) {
                Ok(None) => result is Ok && result->Ok_0 is None,
                Ok(Some(locations)) => result is Ok && result->Ok_0 is Some && result->Ok_0->0.locations.deep_view()
                    == locations && result->Ok_0->0.init_symbol == PLUGIN_INIT_FUNCTION_NAME,
                Err(error) => result is Err && result->Err_0@ == error,
            },
    {
        if self.find(metadata.id.as_str()).is_some() {
            return Err(RegistryError::AlreadyLoaded { id: metadata.id.clone() });
        }
        if !metadata.has_backend {
            return Ok(None);
        }
        match &metadata.backend_lib {
            None => Err(RegistryError::Plugin(PluginError::NameMissing)),
            Some(name) => {
                let own = LibraryLocation {
                    subdirectory: Some(metadata.id.clone()),
                    file_name: self.platform.library_file_name(name.as_str()),
                };
                let shared = LibraryLocation {
                    subdirectory: None,
                    file_name: self.platform.library_file_name(name.as_str()),
                };
                let mut locations: Vec<LibraryLocation> = Vec::new();
                locations.push(own);
                locations.push(shared);
                assert(locations.deep_view() =~= search_order(
                    metadata.id@,
                    self.naming().library_file_name_of(name@),
                ));
                Ok(Some(LoadPlan { locations, init_symbol: PLUGIN_INIT_FUNCTION_NAME }))
            },
        }
    }

    /// Registers `metadata`, given what the host found when it carried out
    /// the plan for it. On success the plugin stands last in the registry,
    /// with the handle that came with the report. On every failure the
    /// registry is left as it was, and a handle that came with the report is
    /// released.
    pub fn load_plugin(&mut self, metadata: PluginMetadata, report: LoadReport) -> (result: Result<
        (),
        RegistryError,
    >)
        ensures
            valid_registry(final(self).entries()),
            final(self).directory() == old(self).directory(),
            final(self).naming() == old(self).naming(),
            final(self).entries() == after_load(
                old(self).entries(),
                old(self).naming(),
                metadata,
                report,
            ),
            match load_outcome(old(self).entries(), old(self).naming(), metadata, report) {
                Ok(_) => result is Ok,
                Err(error) => result is Err && result->Err_0@ == error,
            },
    {
        proof {
            use_type_invariant(&*self);
        }
        if self.find(metadata.id.as_str()).is_some() {
            return Err(RegistryError::AlreadyLoaded { id: metadata.id.clone() });
        }
        let mut plugin = Plugin::new(metadata);
        if plugin.metadata.has_backend {
            let file_name = match &plugin.metadata.backend_lib {
                None => {
                    return Err(RegistryError::Plugin(PluginError::NameMissing));
                },
                Some(name) => self.platform.library_file_name(name.as_str()),
            };
            let loaded = match report {
                LoadReport::NoLibrary => {
                    return Err(RegistryError::LibraryNotFound { file_name });
                },
                LoadReport::OpenFailed { reason } => plugin.load(Err(reason), None),
                LoadReport::Opened { library, init } => plugin.load(Ok(library), init),
            };
            match loaded {
                Ok(_) => {},
                Err(error) => {
                    return Err(RegistryError::Plugin(error));
                },
            }
        }
        let mut plugins: Vec<Plugin> = Vec::new();
        std::mem::swap(&mut plugins, &mut self.plugins);
        plugins.push(plugin);
        self.plugins = plugins;
        Ok(())
    }

    /// The cleanup entry point that the host is to run before it calls
    /// [`PluginManager::unload_plugin`] for this id, if there is one to run.
    pub fn cleanup_symbol(&self, plugin_id: &str) -> (result: Result<Option<String>, RegistryError>)
        ensures
            match cleanup_request(self.entries(), plugin_id@) {
                Ok(symbol) => result is Ok && result->Ok_0.deep_view() == symbol,
                Err(error) => result is Err && result->Err_0@ == error,
            },
    {
        match self.find(plugin_id) {
            Some(i) => Ok(self.plugins[i].cleanup_symbol()),
            None => Err(RegistryError::NotLoaded { id: plugin_id.to_owned() }),
        }
    }

    /// Removes the plugin from the registry and releases its handle. The
    /// plugin is gone whatever its cleanup entry point returned: a nonzero
    /// status is reported, and the entry is removed all the same.
    pub fn unload_plugin(&mut self, plugin_id: &str, cleanup: Option<i32>) -> (result: Result<
        (),
        RegistryError,
    >)
        ensures
            valid_registry(final(self).entries()),
            final(self).directory() == old(self).directory(),
            final(self).naming() == old(self).naming(),
            final(self).entries() == after_unload(old(self).entries(), plugin_id@),
            match unload_outcome(old(self).entries(), plugin_id@, cleanup) {
                Ok(_) => result is Ok,
                Err(error) => result is Err && result->Err_0@ == error,
            },
    {
        proof {
            use_type_invariant(&*self);
        }
        match self.find(plugin_id) {
            Some(i) => {
                let mut plugins: Vec<Plugin> = Vec::new();
                std::mem::swap(&mut plugins, &mut self.plugins);
                let mut plugin = plugins.remove(i);
                self.plugins = plugins;
                match plugin.unload(cleanup) {
                    Ok(_) => Ok(()),
                    Err(error) => Err(RegistryError::Plugin(error)),
                }
            },
            None => Err(RegistryError::NotLoaded { id: plugin_id.to_owned() }),
        }
    }

    /// A copy of the descriptor of every registered plugin, in the order in
    /// which the plugins were loaded. No two of them bear the same id.
    pub fn get_loaded_plugins(&self) -> (list: Vec<PluginMetadata>)
        ensures
            list.deep_view() == listing(self.entries()),
            list.len() == self.entries().len(),
            forall|i: int| 0 <= i < list.len() ==> (#[trigger] list[i])@ == self.entries()[i].metadata@,
            valid_registry(self.entries()),
    {
        proof {
            use_type_invariant(self);
        }
        let mut list: Vec<PluginMetadata> = Vec::new();
        let mut i: usize = 0;
        while i < self.plugins.len()
            invariant
                i <= self.plugins.len(),
                list.len() == i,
                forall|j: int| 0 <= j < i ==> list[j]@ == self.plugins@[j].metadata@,
            decreases self.plugins.len() - i,
        {
            list.push(self.plugins[i].metadata.clone());
            i += 1;
        }
        list
    }

    /// The handle of the plugin's library, for the host to resolve symbols
    /// in. There is one exactly for a registered plugin that declares a
    /// backend.
    pub fn library(&self, plugin_id: &str) -> (handle: Option<&Library>)
        ensures
            valid_registry(self.entries()),
            handle is Some <==> registered(self.entries(), plugin_id@) && self.entries()[position(
                self.entries(),
                plugin_id@,
            )].metadata.has_backend,
            handle is Some ==> self.entries()[position(self.entries(), plugin_id@)].library
                == Some(*handle->0),
    {
        proof {
            use_type_invariant(self);
        }
        match self.find(plugin_id) {
            Some(i) => self.plugins[i].library.as_ref(),
            None => None,
        }
    }

    /// The symbol that the host is to resolve for `function_name` of the
    /// plugin `plugin_id`.
    pub fn function_symbol(&self, plugin_id: &str, function_name: &str) -> (result: Result<
        String,
        RegistryError,
    >)
        ensures
            valid_registry(self.entries()),
            match symbol_outcome(self.entries(), plugin_id@, function_name@) {
                Ok(symbol) => result is Ok && result->Ok_0@ == symbol,
                Err(error) => result is Err && result->Err_0@ == error,
            },
            registered(self.entries(), plugin_id@) ==> (result is Ok <==> self.entries()[position(
                self.entries(),
                plugin_id@,
            )].metadata.has_backend),
    {
        proof {
            use_type_invariant(self);
        }
        match self.find(plugin_id) {
            Some(i) => match self.plugins[i].function_symbol(function_name) {
                Ok(symbol) => Ok(symbol),
                Err(error) => Err(RegistryError::Plugin(error)),
            },
            None => Err(RegistryError::NotLoaded { id: plugin_id.to_owned() }),
        }
    }

    /// Takes in the result of a call of `function_name` of the plugin
    /// `plugin_id`: what the function returned, or `None` if the host did
    /// not find its symbol. The call goes through exactly for a registered
    /// plugin that declares a backend and whose function was found.
    pub fn call_plugin_function(
        &self,
        plugin_id: &str,
        function_name: &str,
        returned: Option<i32>,
    ) -> (result: Result<i32, RegistryError>)
        ensures
            valid_registry(self.entries()),
            match call_outcome(self.entries(), plugin_id@, function_name@, returned) {
                Ok(value) => result == Ok::<i32, RegistryError>(value),
                Err(error) => result is Err && result->Err_0@ == error,
            },
            result is Ok <==> registered(self.entries(), plugin_id@) && self.entries()[position(
                self.entries(),
                plugin_id@,
            )].metadata.has_backend && returned is Some,
    {
        proof {
            use_type_invariant(self);
        }
        match self.find(plugin_id) {
            Some(i) => match self.plugins[i].call_function(function_name, returned) {
                Ok(value) => Ok(value),
                Err(error) => Err(RegistryError::Plugin(error)),
            },
            None => Err(RegistryError::NotLoaded { id: plugin_id.to_owned() }),
        }
    }
}

} // verus!
