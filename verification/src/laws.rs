//! What holds of the registry across its operations. Each statement speaks
//! of the registry's entries before and after, through the same functions
//! that the contracts of [`PluginManager`](crate::manager::PluginManager)
//! use.

use vstd::prelude::*;
use libloading::Library;
use crate::error::{PluginErrorView, RegistryErrorView};
use crate::manager::{
    after_load, after_unload, call_outcome, lemma_position, listing, load_outcome, load_request,
    position, registered, unique_ids, unload_outcome, valid_registry, LibraryLocationView,
    LoadReport,
};
use crate::platform::Platform;
use crate::plugin::Plugin;
use crate::types::PluginMetadata;

verus! {

/// A load succeeds exactly when the id is free and, for a plugin that
/// declares a backend, the backend is named, its library was opened and its
/// init entry point returned zero. A plugin without a backend needs nothing
/// from the host.
pub proof fn law_load_succeeds_exactly_when(
    entries: Seq<Plugin>,
    platform: Platform,
    metadata: PluginMetadata,
    report: LoadReport,
)
    ensures
        load_outcome(entries, platform, metadata, report) is Ok <==> !registered(
            entries,
            metadata.id@,
        ) && (metadata.has_backend ==> metadata.backend_lib is Some && report is Opened
            && report->init == Some(0i32)),
{
}

/// What the plan refuses, the load refuses in the same way, whatever the
/// host reports; and where the plan has nothing to open, the load succeeds
/// whatever the host reports.
pub proof fn law_load_follows_the_plan(
    entries: Seq<Plugin>,
    platform: Platform,
    metadata: PluginMetadata,
    report: LoadReport,
)
    ensures
        load_request(entries, platform, metadata@) is Err ==> load_outcome(
            entries,
            platform,
            metadata,
            report,
        ) == Err::<Plugin, RegistryErrorView>(load_request(entries, platform, metadata@)->Err_0),
        load_request(entries, platform, metadata@) == Ok::<
            Option<Seq<LibraryLocationView>>,
            RegistryErrorView,
        >(None) ==> load_outcome(entries, platform, metadata, report) is Ok,
{
}

/// A descriptor that declares a backend without naming its library is found
/// out when it is loaded: the load of such a descriptor, its id being free,
/// fails with `NameMissing`; and only such descriptors fail so.
pub proof fn law_inconsistent_descriptor_is_refused(
    entries: Seq<Plugin>,
    platform: Platform,
    metadata: PluginMetadata,
    report: LoadReport,
)
    requires
        !registered(entries, metadata.id@),
    ensures
        !metadata.consistent() <==> load_outcome(entries, platform, metadata, report) == Err::<
            Plugin,
            RegistryErrorView,
        >(RegistryErrorView::Plugin(PluginErrorView::NameMissing)),
{
}

/// Loading an id that is registered fails with `AlreadyLoaded`, whatever the
/// descriptor says and whatever the host reports, and leaves the registry as
/// it was.
pub proof fn law_registered_id_is_refused(
    entries: Seq<Plugin>,
    platform: Platform,
    metadata: PluginMetadata,
    report: LoadReport,
)
    requires
        registered(entries, metadata.id@),
    ensures
        load_outcome(entries, platform, metadata, report) == Err::<Plugin, RegistryErrorView>(
            RegistryErrorView::AlreadyLoaded { id: metadata.id@ },
        ),
        after_load(entries, platform, metadata, report) == entries,
{
}

/// A load that fails, for whatever reason, leaves the registry as it was.
pub proof fn law_failed_load_changes_nothing(
    entries: Seq<Plugin>,
    platform: Platform,
    metadata: PluginMetadata,
    report: LoadReport,
)
    requires
        load_outcome(entries, platform, metadata, report) is Err,
    ensures
        after_load(entries, platform, metadata, report) == entries,
{
}

/// A load that succeeds keeps the registry well formed, registers the id and
/// leaves every wrapper that was there before in its place, untouched.
pub proof fn law_load_registers(
    entries: Seq<Plugin>,
    platform: Platform,
    metadata: PluginMetadata,
    report: LoadReport,
)
    requires
        unique_ids(entries),
        load_outcome(entries, platform, metadata, report) is Ok,
    ensures
        unique_ids(after_load(entries, platform, metadata, report)),
        registered(after_load(entries, platform, metadata, report), metadata.id@),
        after_load(entries, platform, metadata, report).len() == entries.len() + 1,
        forall|i: int|
            0 <= i < entries.len() ==> after_load(entries, platform, metadata, report)[i]
                == entries[i],
        after_load(entries, platform, metadata, report).last().metadata == metadata,
{
}

/// Loading the same id twice with no unload in between: the second load
/// fails with `AlreadyLoaded`, and the registry that the first load left,
/// the first wrapper and its handle included, stays as it is.
pub proof fn law_second_load_is_refused(
    entries: Seq<Plugin>,
    platform: Platform,
    first: PluginMetadata,
    first_report: LoadReport,
    second: PluginMetadata,
    second_report: LoadReport,
)
    requires
        unique_ids(entries),
        first.id@ == second.id@,
        load_outcome(entries, platform, first, first_report) is Ok,
    ensures
        load_outcome(
            after_load(entries, platform, first, first_report),
            platform,
            second,
            second_report,
        ) == Err::<Plugin, RegistryErrorView>(RegistryErrorView::AlreadyLoaded { id: second.id@ }),
        after_load(
            after_load(entries, platform, first, first_report),
            platform,
            second,
            second_report,
        ) == after_load(entries, platform, first, first_report),
{
    law_load_registers(entries, platform, first, first_report);
}

/// A registered id stays registered, with its wrapper untouched, through
/// every load and through every unload of another id: only its own unload
/// removes it.
pub proof fn law_registration_persists(
    entries: Seq<Plugin>,
    id: Seq<char>,
    platform: Platform,
    metadata: PluginMetadata,
    report: LoadReport,
    other: Seq<char>,
)
    requires
        unique_ids(entries),
        registered(entries, id),
    ensures
        registered(after_load(entries, platform, metadata, report), id),
        after_load(entries, platform, metadata, report)[position(
            after_load(entries, platform, metadata, report),
            id,
        )] == entries[position(entries, id)],
        other != id ==> registered(after_unload(entries, other), id),
        other != id ==> after_unload(entries, other)[position(after_unload(entries, other), id)]
            == entries[position(entries, id)],
{
    let p = position(entries, id);
    let loaded = after_load(entries, platform, metadata, report);
    if load_outcome(entries, platform, metadata, report) is Ok {
        law_load_registers(entries, platform, metadata, report);
        lemma_position(loaded, id, p);
    }
    if other != id {
        lemma_unload_keeps_order(entries, other);
        let unloaded = after_unload(entries, other);
        if registered(entries, other) {
            let q = position(entries, other);
            let shifted = if p < q { p } else { p - 1 };
            lemma_position(unloaded, id, shifted);
        }
    }
}

/// The registry stays valid through every load and every unload, whatever
/// the host reports: no id comes to stand in it twice, and every plugin in
/// it holds a handle exactly when it declares a backend.
pub proof fn law_registry_stays_valid(
    entries: Seq<Plugin>,
    platform: Platform,
    metadata: PluginMetadata,
    report: LoadReport,
    id: Seq<char>,
)
    requires
        valid_registry(entries),
    ensures
        valid_registry(after_load(entries, platform, metadata, report)),
        valid_registry(after_unload(entries, id)),
{
    if load_outcome(entries, platform, metadata, report) is Ok {
        law_load_registers(entries, platform, metadata, report);
    }
    lemma_unload_keeps_order(entries, id);
}

/// In a valid registry a call on a registered plugin comes to one of three
/// things: a plugin without a backend has no library to call into; else the
/// function was not found in the library; else the call returns what the
/// function returned.
pub proof fn law_call_on_registered_plugin(
    entries: Seq<Plugin>,
    id: Seq<char>,
    function_name: Seq<char>,
    returned: Option<i32>,
)
    requires
        valid_registry(entries),
        registered(entries, id),
    ensures
        call_outcome(entries, id, function_name, returned) == (if !entries[position(
            entries,
            id,
        )].metadata.has_backend {
            Err::<i32, RegistryErrorView>(RegistryErrorView::Plugin(PluginErrorView::NotLoaded))
        } else {
            match returned {
                None => Err(
                    RegistryErrorView::Plugin(
                        PluginErrorView::SymbolError {
                            symbol: entries[position(entries, id)].metadata.backend_lib->0@ + "_"@
                                + function_name,
                        },
                    ),
                ),
                Some(value) => Ok(value),
            }
        }),
{
}

/// Removing one wrapper keeps the others distinct.
pub proof fn lemma_unload_keeps_order(entries: Seq<Plugin>, id: Seq<char>)
    requires
        unique_ids(entries),
    ensures
        unique_ids(after_unload(entries, id)),
{
}

/// Unloading an id that is not registered fails with `NotLoaded` and changes
/// nothing.
pub proof fn law_unload_of_absent_id(entries: Seq<Plugin>, id: Seq<char>, cleanup: Option<i32>)
    requires
        !registered(entries, id),
    ensures
        unload_outcome(entries, id, cleanup) == Err::<(), RegistryErrorView>(
            RegistryErrorView::NotLoaded { id },
        ),
        after_unload(entries, id) == entries,
{
}

/// Unloading a registered id removes it: afterwards the id is not
/// registered and no descriptor of the listing bears it, whether or not the
/// cleanup entry point failed. The other plugins stay, in their order.
pub proof fn law_unload_removes(entries: Seq<Plugin>, id: Seq<char>, cleanup: Option<i32>)
    requires
        unique_ids(entries),
        registered(entries, id),
    ensures
        unique_ids(after_unload(entries, id)),
        !registered(after_unload(entries, id), id),
        forall|i: int|
            0 <= i < listing(after_unload(entries, id)).len() ==> (#[trigger] listing(
                after_unload(entries, id),
            )[i]).id != id,
        listing(after_unload(entries, id)) == listing(entries).remove(position(entries, id)),
        unload_outcome(entries, id, cleanup) is Err ==> unload_outcome(entries, id, cleanup)
            == Err::<(), RegistryErrorView>(
            RegistryErrorView::Plugin(PluginErrorView::CleanupError { code: cleanup->0 }),
        ),
{
    lemma_unload_keeps_order(entries, id);
}

/// A call on an id that is not registered fails with `NotLoaded`, whatever
/// the function and whatever the host reports.
pub proof fn law_call_on_absent_id(
    entries: Seq<Plugin>,
    id: Seq<char>,
    function_name: Seq<char>,
    returned: Option<i32>,
)
    requires
        !registered(entries, id),
    ensures
        call_outcome(entries, id, function_name, returned) == Err::<i32, RegistryErrorView>(
            RegistryErrorView::NotLoaded { id },
        ),
{
}

/// After an unload of an id, every call on that id fails with `NotLoaded`:
/// it does not matter whether the id was ever loaded, nor whether its
/// cleanup failed.
pub proof fn law_call_after_unload(
    entries: Seq<Plugin>,
    id: Seq<char>,
    function_name: Seq<char>,
    returned: Option<i32>,
)
    requires
        unique_ids(entries),
    ensures
        call_outcome(after_unload(entries, id), id, function_name, returned) == Err::<
            i32,
            RegistryErrorView,
        >(RegistryErrorView::NotLoaded { id }),
{
    if registered(entries, id) {
        law_unload_removes(entries, id, None);
    }
}

/// A plugin that declares a backend and whose init entry point returns a
/// nonzero status is not loaded: the load fails, with `InitError` and the
/// status where the backend is named, and an id that was not registered
/// before is not registered afterwards, so that no listing shows it.
pub proof fn law_failed_init_registers_nothing(
    entries: Seq<Plugin>,
    platform: Platform,
    metadata: PluginMetadata,
    library: Library,
    code: i32,
)
    requires
        metadata.has_backend,
        code != 0,
        !registered(entries, metadata.id@),
    ensures
        load_outcome(
            entries,
            platform,
            metadata,
            LoadReport::Opened { library, init: Some(code) },
        ) is Err,
        metadata.backend_lib is Some ==> load_outcome(
            entries,
            platform,
            metadata,
            LoadReport::Opened { library, init: Some(code) },
        ) == Err::<Plugin, RegistryErrorView>(
            RegistryErrorView::Plugin(PluginErrorView::InitError { code }),
        ),
        after_load(entries, platform, metadata, LoadReport::Opened { library, init: Some(code) })
            == entries,
        !registered(
            after_load(
                entries,
                platform,
                metadata,
                LoadReport::Opened { library, init: Some(code) },
            ),
            metadata.id@,
        ),
        forall|i: int|
            0 <= i < listing(entries).len() ==> (#[trigger] listing(entries)[i]).id != metadata.id@,
{
}

/// Round trip through the registry: after a load that succeeds the listing
/// is the listing before with the plugin's descriptor at its end, so that an
/// empty registry lists exactly that descriptor; and unloading the plugin
/// again gives back the registry as it was before the load.
pub proof fn law_load_then_unload(
    entries: Seq<Plugin>,
    platform: Platform,
    metadata: PluginMetadata,
    report: LoadReport,
)
    requires
        unique_ids(entries),
        load_outcome(entries, platform, metadata, report) is Ok,
    ensures
        listing(after_load(entries, platform, metadata, report)) == listing(entries).push(
            metadata@,
        ),
        entries.len() == 0 ==> listing(after_load(entries, platform, metadata, report)) == seq![
            metadata@,
        ],
        after_unload(after_load(entries, platform, metadata, report), metadata.id@) == entries,
{
    law_load_registers(entries, platform, metadata, report);
    lemma_position(
        after_load(entries, platform, metadata, report),
        metadata.id@,
        entries.len() as int,
    );
}

} // verus!
