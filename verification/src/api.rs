//! Installing and removing plugins.
//!
//! An installation reads a plugin archive and says, step by step, what the
//! host is to put on disk. The host parses the descriptor and performs the
//! steps; this module finds the descriptor, orders the steps and decides
//! where each entry goes. Installing and loading are separate operations: an
//! installation never touches the registry.

use vstd::prelude::*;
use crate::archive::{is_directory_name, Archive};
use crate::error::{InstallError, RegistryError};
use crate::manager::{after_unload, unload_outcome, valid_registry, PluginManager};
use crate::types::{PluginMetadata, PLUGIN_METADATA_FILE_NAME};
use crate::utils::{ends_with, normalize_path_with, normalized};

verus! {

/// An entry of this name is a descriptor file: the name ends with the
/// descriptor's file name.
pub open spec fn is_descriptor_name(name: Seq<char>) -> bool {
    PLUGIN_METADATA_FILE_NAME@.is_suffix_of(name)
}

/// The entry at `index` can be opened and is a descriptor file.
pub open spec fn is_descriptor_at(names: Seq<Option<Seq<char>>>, index: int) -> bool {
    0 <= index < names.len() && names[index] is Some && is_descriptor_name(names[index]->0)
}

/// The archive holds a descriptor file.
pub open spec fn has_descriptor(names: Seq<Option<Seq<char>>>) -> bool {
    exists|index: int| is_descriptor_at(names, index)
}

/// `index` is the first entry that is a descriptor file.
pub open spec fn is_first_descriptor(names: Seq<Option<Seq<char>>>, index: int) -> bool {
    is_descriptor_at(names, index) && forall|earlier: int|
        0 <= earlier < index ==> !is_descriptor_at(names, earlier)
}

/// The index of the archive's descriptor: the first entry that is one.
pub open spec fn descriptor_index(names: Seq<Option<Seq<char>>>) -> int {
    choose|index: int| is_first_descriptor(names, index)
}

/// What looking for the descriptor comes to: its bytes, or the reason why
/// there are none.
pub open spec fn descriptor_outcome(
    names: Seq<Option<Seq<char>>>,
    contents: Seq<Option<Seq<u8>>>,
) -> Result<Seq<u8>, InstallError> {
    if !has_descriptor(names) {
        Err(InstallError::MetadataNotFound)
    } else {
        match contents[descriptor_index(names)] {
            Some(bytes) => Ok(bytes),
            None => Err(InstallError::MetadataUnreadable),
        }
    }
}

/// One thing that the host is to do on disk for an installation. Every path
/// is relative to the plugin's own directory.
#[derive(Debug, PartialEq, Eq)]
pub enum InstallStep {
    /// Delete the directory `directory` below the plugin root with all that
    /// is in it, if it exists, and create it empty.
    ResetDirectory { directory: String },
    /// Create the directory `path` and the directories above it.
    CreateDirectory { path: String },
    /// Create the directories above `path` and write `data` to the file
    /// `path`.
    WriteFile { path: String, data: Vec<u8> },
}

/// Mathematical value of an [`InstallStep`].
pub enum InstallStepView {
    ResetDirectory { directory: Seq<char> },
    CreateDirectory { path: Seq<char> },
    WriteFile { path: Seq<char>, data: Seq<u8> },
}

impl View for InstallStep {
    type V = InstallStepView;

    open spec fn view(&self) -> InstallStepView {
        match self {
            InstallStep::ResetDirectory { directory } => InstallStepView::ResetDirectory {
                directory: directory@,
            },
            InstallStep::CreateDirectory { path } => InstallStepView::CreateDirectory { path: path@ },
            InstallStep::WriteFile { path, data } => InstallStepView::WriteFile {
                path: path@,
                data: data@,
            },
        }
    }
}

/// The step that puts the entry at `index` on disk: a directory for a
/// directory name, else a file with the entry's contents, at the entry's name
/// with `separator` between its components.
pub open spec fn entry_step(
    names: Seq<Option<Seq<char>>>,
    contents: Seq<Option<Seq<u8>>>,
    separator: char,
    index: int,
) -> Result<InstallStepView, InstallError> {
    match names[index] {
        None => Err(InstallError::EntryUnreadable { index: index as usize }),
        Some(name) => if is_directory_name(name) {
            Ok(InstallStepView::CreateDirectory { path: normalized(name, separator) })
        } else {
            match contents[index] {
                None => Err(InstallError::EntryUnreadable { index: index as usize }),
                Some(data) => Ok(
                    InstallStepView::WriteFile { path: normalized(name, separator), data },
                ),
            }
        },
    }
}

/// The steps of an installation, by number: first the plugin's directory is
/// reset, then the entries follow in the archive's order. `None` once every
/// entry has had its step.
pub open spec fn install_step(
    names: Seq<Option<Seq<char>>>,
    contents: Seq<Option<Seq<u8>>>,
    separator: char,
    id: Seq<char>,
    number: nat,
) -> Option<Result<InstallStepView, InstallError>> {
    if number == 0 {
        Some(Ok(InstallStepView::ResetDirectory { directory: id }))
    } else if number <= names.len() {
        Some(entry_step(names, contents, separator, number - 1))
    } else {
        None
    }
}

/// Every entry of the archive can be put on disk: its name can be read and,
/// unless it is a directory, so can its contents.
pub open spec fn all_entries_readable(
    names: Seq<Option<Seq<char>>>,
    contents: Seq<Option<Seq<u8>>>,
) -> bool {
    forall|index: int|
        0 <= index < names.len() ==> (#[trigger] names[index]) is Some && (is_directory_name(
            names[index]->0,
        ) || contents[index] is Some)
}

/// An installation goes through exactly when every entry can be put on disk:
/// then there is one step for the plugin's directory and one for each entry,
/// none of them fails, and no step comes after them.
pub proof fn law_readable_archive_installs(
    names: Seq<Option<Seq<char>>>,
    contents: Seq<Option<Seq<u8>>>,
    separator: char,
    id: Seq<char>,
)
    ensures
        all_entries_readable(names, contents) <==> forall|number: nat|
            number <= names.len() ==> (#[trigger] install_step(
                names,
                contents,
                separator,
                id,
                number,
            )) matches Some(Ok(_)),
        forall|number: nat|
            number > names.len() ==> (#[trigger] install_step(
                names,
                contents,
                separator,
                id,
                number,
            )) is None,
{
    if forall|number: nat|
        number <= names.len() ==> (#[trigger] install_step(names, contents, separator, id, number))
            matches Some(Ok(_)) {
        assert forall|index: int| 0 <= index < names.len() implies (#[trigger] names[index]) is Some
            && (is_directory_name(names[index]->0) || contents[index] is Some) by {
            let number = (index + 1) as nat;
            assert(install_step(names, contents, separator, id, number) matches Some(Ok(_)));
        }
    }
}

/// Finds the descriptor of the plugin in `archive` and hands out its bytes
/// for the host to parse. The descriptor is the first entry that can be
/// opened and whose name ends with the descriptor's file name.
pub fn find_and_read_metadata(archive: &mut Archive) -> (result: Result<Vec<u8>, InstallError>)
    ensures
        final(archive).names() == old(archive).names(),
        final(archive).contents() == old(archive).contents(),
        match descriptor_outcome(old(archive).names(), old(archive).contents()) {
            Ok(bytes) => result is Ok && result->Ok_0@ == bytes,
            Err(error) => result == Err::<Vec<u8>, InstallError>(error),
        },
{
    let count = archive.len();
    let mut index: usize = 0;
    while index < count
        invariant
            archive.names() == old(archive).names(),
            archive.contents() == old(archive).contents(),
            count == archive.names().len(),
            count == archive.contents().len(),
            index <= count,
            forall|earlier: int| 0 <= earlier < index ==> !is_descriptor_at(archive.names(), earlier),
        decreases count - index,
    {
        let found = match archive.entry_header(index) {
            Some(header) => ends_with(header.name.as_str(), PLUGIN_METADATA_FILE_NAME),
            None => false,
        };
        if found {
            assert(is_first_descriptor(archive.names(), index as int));
            return match archive.entry_data(index) {
                Some(bytes) => Ok(bytes),
                None => Err(InstallError::MetadataUnreadable),
            };
        }
        index += 1;
    }
    Err(InstallError::MetadataNotFound)
}

/// An installation in progress: the archive, the descriptor that the host
/// parsed from it, and how far the steps have come.
pub struct Installer {
    archive: Archive,
    metadata: PluginMetadata,
    separator: char,
    /// The entry whose step comes next; `None` until the directory was reset.
    next: Option<usize>,
}

impl Installer {
    /// The archive that is being installed.
    pub closed spec fn archive(&self) -> Archive {
        self.archive
    }

    /// The descriptor of the plugin that is being installed.
    pub closed spec fn descriptor(&self) -> PluginMetadata {
        self.metadata
    }

    /// The character put between the components of the paths handed out.
    pub closed spec fn separator(&self) -> char {
        self.separator
    }

    /// The number of steps handed out so far.
    pub closed spec fn progress(&self) -> nat {
        match self.next {
            None => 0,
            Some(index) => (index + 1) as nat,
        }
    }

    /// The step that comes next, `None` when the installation is complete.
    pub open spec fn pending(&self) -> Option<Result<InstallStepView, InstallError>> {
        install_step(
            self.archive().names(),
            self.archive().contents(),
            self.separator(),
            self.descriptor().id@,
            self.progress(),
        )
    }

    /// The descriptor of the plugin that is being installed.
    pub fn metadata(&self) -> (metadata: &PluginMetadata)
        ensures
            *metadata == self.descriptor(),
    {
        &self.metadata
    }

    /// Hands out the next step of the installation, `None` when every entry
    /// has had its step. An entry that cannot be read ends the installation:
    /// the failure is returned, now and at every later call, and what was
    /// put on disk before stays there.
    pub fn next_step(&mut self) -> (result: Result<Option<InstallStep>, InstallError>)
        ensures
            final(self).archive().names() == old(self).archive().names(),
            final(self).archive().contents() == old(self).archive().contents(),
            final(self).descriptor() == old(self).descriptor(),
            final(self).separator() == old(self).separator(),
            match old(self).pending() {
                None => result is Ok && result->Ok_0 is None && final(self).progress() == old(
                    self,
                ).progress(),
                Some(Ok(step)) => result is Ok && result->Ok_0 is Some && result->Ok_0->0@ == step
                    && final(self).progress() == old(self).progress() + 1,
                Some(Err(error)) => result == Err::<Option<InstallStep>, InstallError>(error)
                    && final(self).progress() == old(self).progress(),
            },
    {
        let index = match self.next {
            None => {
                self.next = Some(0);
                return Ok(Some(InstallStep::ResetDirectory { directory: self.metadata.id.clone() }));
            },
            Some(index) => index,
        };
        if index >= self.archive.len() {
            return Ok(None);
        }
        let header = match self.archive.entry_header(index) {
            Some(header) => header,
            None => {
                return Err(InstallError::EntryUnreadable { index });
            },
        };
        let path = normalize_path_with(header.name.as_str(), self.separator);
        if header.is_directory {
            self.next = Some(index + 1);
            return Ok(Some(InstallStep::CreateDirectory { path }));
        }
        match self.archive.entry_data(index) {
            Some(data) => {
                self.next = Some(index + 1);
                Ok(Some(InstallStep::WriteFile { path, data }))
            },
            None => Err(InstallError::EntryUnreadable { index }),
        }
    }

    /// Tells whether the installation is complete: every step was handed
    /// out and none failed.
    pub fn is_complete(&self) -> (complete: bool)
        ensures
            complete == (self.pending() is None),
    {
        match self.next {
            None => false,
            Some(index) => index >= self.archive.len(),
        }
    }

    /// Ends a complete installation and returns the descriptor of the plugin,
    /// ready to be loaded. An installation that has steps left, or that
    /// failed at one, has no descriptor to hand out.
    pub fn finish(self) -> (metadata: PluginMetadata)
        requires
            self.pending() is None,
        ensures
            metadata == self.descriptor(),
    {
        self.metadata
    }
}

/// Begins the installation of the plugin in `archive`. The archive is
/// searched for its descriptor first: an archive without one, or with one
/// that cannot be read, is refused before any step is handed out. `parsed`
/// is what the host made of the descriptor's bytes, `None` if they are not a
/// valid descriptor. The installation puts its paths together with
/// `separator`.
pub fn install_plugin_from_zip(
    archive: Archive,
    parsed: Option<PluginMetadata>,
    separator: char,
) -> (result: Result<Installer, InstallError>)
    ensures
        match descriptor_outcome(archive.names(), archive.contents()) {
            Err(error) => result is Err && result->Err_0 == error,
            Ok(_) => match parsed {
                None => result is Err && result->Err_0 == InstallError::MetadataInvalid,
                Some(metadata) => result is Ok && result->Ok_0.archive().names() == archive.names()
                    && result->Ok_0.archive().contents() == archive.contents()
                    && result->Ok_0.descriptor() == metadata && result->Ok_0.separator()
                    == separator && result->Ok_0.progress() == 0,
            },
        },
{
    let mut archive = archive;
    match find_and_read_metadata(&mut archive) {
        Err(error) => Err(error),
        Ok(_) => match parsed {
            None => Err(InstallError::MetadataInvalid),
            Some(metadata) => Ok(Installer { archive, metadata, separator, next: None }),
        },
    }
}

/// Unloads the plugin `plugin_id` as [`PluginManager::unload_plugin`] does
/// and, if that went well, names the directory below the plugin root that the
/// host is to delete: the plugin's id. A plugin that is not registered, or
/// whose cleanup fails, keeps its directory.
pub fn uninstall_plugin(manager: &mut PluginManager, plugin_id: &str, cleanup: Option<i32>) -> (result:
    Result<String, RegistryError>)
    ensures
        valid_registry(final(manager).entries()),
        final(manager).directory() == old(manager).directory(),
        final(manager).naming() == old(manager).naming(),
        final(manager).entries() == after_unload(old(manager).entries(), plugin_id@),
        match unload_outcome(old(manager).entries(), plugin_id@, cleanup) {
            Ok(_) => result is Ok && result->Ok_0@ == plugin_id@,
            Err(error) => result is Err && result->Err_0@ == error,
        },
{
    match manager.unload_plugin(plugin_id, cleanup) {
        Ok(_) => Ok(plugin_id.to_owned()),
        Err(error) => Err(error),
    }
}

/// Ends the removal of a plugin. `removed` tells whether the host deleted the
/// plugin's directory.
pub fn finish_uninstall(removed: bool) -> (result: Result<(), InstallError>)
    ensures
        removed ==> result is Ok,
        !removed ==> result == Err::<(), InstallError>(InstallError::DirectoryRemovalFailed),
{
    if removed {
        Ok(())
    } else {
        Err(InstallError::DirectoryRemovalFailed)
    }
}

} // verus!
