use std::io::{Cursor, Write};

use libloading::Library;
use plugin_runtime::api::{
    find_and_read_metadata, finish_uninstall, install_plugin_from_zip, uninstall_plugin,
    InstallStep,
};
use plugin_runtime::archive::{Archive, EntryHeader};
use plugin_runtime::error::{InstallError, PluginError, RegistryError};
use plugin_runtime::manager::{LoadReport, PluginManager};
use plugin_runtime::platform::Platform;
use plugin_runtime::types::{PluginMetadata, PluginType};
use zip::write::SimpleFileOptions;
use zip::{CompressionMethod, ZipWriter};

const CALC_DESCRIPTOR: &str =
    r#"{"id":"calc","name":"Calculator","version":"1.0.0","plugin_type":"tool","has_backend":true,"backend_lib":"calc"}"#;

fn stored() -> SimpleFileOptions {
    SimpleFileOptions::default().compression_method(CompressionMethod::Stored)
}

fn deflated() -> SimpleFileOptions {
    SimpleFileOptions::default().compression_method(CompressionMethod::Deflated)
}

fn zip_of(entries: &[(&str, Option<&[u8]>)], options: SimpleFileOptions) -> Vec<u8> {
    let mut writer = ZipWriter::new(Cursor::new(Vec::new()));
    for (name, data) in entries {
        match data {
            Some(bytes) => {
                writer.start_file(*name, options).unwrap();
                writer.write_all(bytes).unwrap();
            }
            None => writer.add_directory(*name, options).unwrap(),
        }
    }
    writer.finish().unwrap().into_inner()
}

fn position_of(haystack: &[u8], needle: &[u8], from: usize) -> usize {
    (from..haystack.len() - needle.len() + 1)
        .find(|&at| &haystack[at..at + needle.len()] == needle)
        .unwrap()
}

fn parse_descriptor(bytes: &[u8]) -> Option<PluginMetadata> {
    let value: serde_json::Value = serde_json::from_slice(bytes).ok()?;
    let text = |key: &str| value.get(key).and_then(|v| v.as_str()).map(|s| s.to_string());
    Some(PluginMetadata {
        id: text("id")?,
        name: text("name")?,
        version: text("version")?,
        origin: text("origin"),
        plugin_type: match value.get("plugin_type").and_then(|v| v.as_str()) {
            Some("tool") => Some(PluginType::Tool),
            Some("system") => Some(PluginType::System),
            Some("ai") => Some(PluginType::Ai),
            _ => None,
        },
        description: text("description"),
        author: text("author"),
        has_backend: value.get("has_backend")?.as_bool()?,
        backend_lib: text("backend_lib"),
        dependencies: None,
        menu_options: None,
        config_options: None,
    })
}

fn calc_metadata() -> PluginMetadata {
    parse_descriptor(CALC_DESCRIPTOR.as_bytes()).unwrap()
}

fn all_steps(bytes: Vec<u8>, separator: char) -> Vec<InstallStep> {
    let archive = Archive::open(bytes).unwrap();
    let mut installer = install_plugin_from_zip(archive, Some(calc_metadata()), separator).unwrap();
    let mut steps = Vec::new();
    assert!(!installer.is_complete());
    while let Some(step) = installer.next_step().unwrap() {
        steps.push(step);
    }
    assert_eq!(installer.next_step(), Ok(None));
    assert!(installer.is_complete());
    assert_eq!(installer.finish(), calc_metadata());
    steps
}

#[test]
fn open_refuses_what_is_no_archive() {
    assert!(matches!(Archive::open(Vec::new()), Err(InstallError::ArchiveUnreadable)));
    assert!(matches!(
        Archive::open(b"this is not a zip archive at all".to_vec()),
        Err(InstallError::ArchiveUnreadable)
    ));
    let mut truncated = zip_of(&[("metadata.json", Some(CALC_DESCRIPTOR.as_bytes()))], stored());
    truncated.truncate(20);
    assert!(matches!(Archive::open(truncated), Err(InstallError::ArchiveUnreadable)));
}

#[test]
fn open_reads_the_entries_in_order() {
    let bytes = zip_of(
        &[("b.txt", Some(b"bee")), ("dir/", None), ("dir/a.bin", Some(&[0, 1, 2, 255]))],
        deflated(),
    );
    let mut archive = Archive::open(bytes).unwrap();
    assert_eq!(archive.len(), 3);
    assert_eq!(
        archive.entry_header(0),
        Some(EntryHeader { name: "b.txt".to_string(), is_directory: false })
    );
    assert_eq!(
        archive.entry_header(1),
        Some(EntryHeader { name: "dir/".to_string(), is_directory: true })
    );
    assert_eq!(
        archive.entry_header(2),
        Some(EntryHeader { name: "dir/a.bin".to_string(), is_directory: false })
    );
    assert_eq!(archive.entry_data(0), Some(b"bee".to_vec()));
    assert_eq!(archive.entry_data(2), Some(vec![0, 1, 2, 255]));
    assert_eq!(archive.entry_data(0), Some(b"bee".to_vec()));
    assert_eq!(archive.len(), 3);
}

#[test]
fn entries_out_of_range_are_unreadable() {
    let mut archive = Archive::open(zip_of(&[("a", Some(b"x"))], stored())).unwrap();
    assert_eq!(archive.entry_header(1), None);
    assert_eq!(archive.entry_data(1), None);
    assert_eq!(archive.entry_header(usize::MAX), None);
    let mut empty = Archive::open(zip_of(&[], stored())).unwrap();
    assert_eq!(empty.len(), 0);
    assert_eq!(empty.entry_header(0), None);
}

#[test]
fn backslash_marks_a_directory_too() {
    let mut archive = Archive::open(zip_of(&[("dir\\", Some(b""))], stored())).unwrap();
    assert_eq!(
        archive.entry_header(0),
        Some(EntryHeader { name: "dir\\".to_string(), is_directory: true })
    );
}

#[test]
fn find_metadata_at_the_root() {
    let bytes = zip_of(
        &[("libcalc.so", Some(b"\x7fELF")), ("metadata.json", Some(CALC_DESCRIPTOR.as_bytes()))],
        deflated(),
    );
    let mut archive = Archive::open(bytes).unwrap();
    assert_eq!(find_and_read_metadata(&mut archive), Ok(CALC_DESCRIPTOR.as_bytes().to_vec()));
}

#[test]
fn find_metadata_below_a_directory() {
    let bytes = zip_of(
        &[("calc/", None), ("calc/metadata.json", Some(b"{}")), ("metadata.json", Some(b"[]"))],
        stored(),
    );
    let mut archive = Archive::open(bytes).unwrap();
    assert_eq!(find_and_read_metadata(&mut archive), Ok(b"{}".to_vec()));
}

#[test]
fn find_metadata_takes_the_first_name_that_ends_so() {
    let bytes = zip_of(
        &[
            ("metadata.json.bak", Some(b"backup")),
            ("old-metadata.json", Some(b"first")),
            ("metadata.json", Some(b"second")),
        ],
        stored(),
    );
    let mut archive = Archive::open(bytes).unwrap();
    assert_eq!(find_and_read_metadata(&mut archive), Ok(b"first".to_vec()));
}

#[test]
fn find_metadata_fails_without_a_descriptor() {
    let bytes = zip_of(&[("libcalc.so", Some(b"\x7fELF")), ("readme.md", Some(b"hi"))], stored());
    let mut archive = Archive::open(bytes).unwrap();
    assert_eq!(find_and_read_metadata(&mut archive), Err(InstallError::MetadataNotFound));
    let mut empty = Archive::open(zip_of(&[], stored())).unwrap();
    assert_eq!(find_and_read_metadata(&mut empty), Err(InstallError::MetadataNotFound));
}

#[test]
fn find_metadata_reports_unreadable_contents() {
    let mut bytes = zip_of(&[("metadata.json", Some(b"DESCRIPTOR-BYTES"))], stored());
    let at = position_of(&bytes, b"DESCRIPTOR-BYTES", 0);
    bytes[at] = b'X';
    let mut archive = Archive::open(bytes).unwrap();
    assert_eq!(
        archive.entry_header(0),
        Some(EntryHeader { name: "metadata.json".to_string(), is_directory: false })
    );
    assert_eq!(archive.entry_data(0), None);
    assert_eq!(find_and_read_metadata(&mut archive), Err(InstallError::MetadataUnreadable));
}

#[test]
fn find_metadata_skips_an_entry_that_cannot_be_opened() {
    let mut bytes = zip_of(
        &[("a/metadata.json", Some(b"first")), ("b/metadata.json", Some(b"second"))],
        stored(),
    );
    let central = position_of(&bytes, b"PK\x01\x02", 0);
    bytes[central + 10] = 12;
    bytes[central + 11] = 0;
    let mut archive = Archive::open(bytes).unwrap();
    assert_eq!(archive.len(), 2);
    assert_eq!(archive.entry_header(0), None);
    assert_eq!(archive.entry_data(0), None);
    assert_eq!(find_and_read_metadata(&mut archive), Ok(b"second".to_vec()));
}

#[test]
fn install_refuses_an_invalid_descriptor() {
    let archive = Archive::open(zip_of(&[("metadata.json", Some(b"not json"))], stored())).unwrap();
    assert_eq!(parse_descriptor(b"not json"), None);
    assert!(matches!(
        install_plugin_from_zip(archive, parse_descriptor(b"not json"), '/'),
        Err(InstallError::MetadataInvalid)
    ));
}

#[test]
fn install_steps_follow_the_archive() {
    let bytes = zip_of(
        &[
            ("metadata.json", Some(CALC_DESCRIPTOR.as_bytes())),
            ("lib/", None),
            ("lib/libcalc.so", Some(b"\x7fELF-calc")),
            ("assets\\icons/add.png", Some(&[137, 80, 78, 71])),
        ],
        deflated(),
    );
    assert_eq!(
        all_steps(bytes, '/'),
        vec![
            InstallStep::ResetDirectory { directory: "calc".to_string() },
            InstallStep::WriteFile {
                path: "metadata.json".to_string(),
                data: CALC_DESCRIPTOR.as_bytes().to_vec(),
            },
            InstallStep::CreateDirectory { path: "lib/".to_string() },
            InstallStep::WriteFile {
                path: "lib/libcalc.so".to_string(),
                data: b"\x7fELF-calc".to_vec(),
            },
            InstallStep::WriteFile {
                path: "assets/icons/add.png".to_string(),
                data: vec![137, 80, 78, 71],
            },
        ]
    );
}

#[test]
fn install_steps_use_the_given_separator() {
    let bytes = zip_of(
        &[("lib/", None), ("lib/x86/calc.dll", Some(b"MZ")), ("conf/metadata.json", Some(b"{}"))],
        stored(),
    );
    assert_eq!(
        all_steps(bytes, '\\'),
        vec![
            InstallStep::ResetDirectory { directory: "calc".to_string() },
            InstallStep::CreateDirectory { path: "lib\\".to_string() },
            InstallStep::WriteFile { path: "lib\\x86\\calc.dll".to_string(), data: b"MZ".to_vec() },
            InstallStep::WriteFile { path: "conf\\metadata.json".to_string(), data: b"{}".to_vec() },
        ]
    );
}

#[test]
fn install_of_a_descriptor_alone() {
    assert_eq!(
        all_steps(zip_of(&[("metadata.json", Some(CALC_DESCRIPTOR.as_bytes()))], stored()), '/'),
        vec![
            InstallStep::ResetDirectory { directory: "calc".to_string() },
            InstallStep::WriteFile {
                path: "metadata.json".to_string(),
                data: CALC_DESCRIPTOR.as_bytes().to_vec(),
            },
        ]
    );
}

#[test]
fn install_refuses_an_archive_without_descriptor() {
    let empty = Archive::open(zip_of(&[], stored())).unwrap();
    assert!(matches!(
        install_plugin_from_zip(empty, Some(calc_metadata()), '/'),
        Err(InstallError::MetadataNotFound)
    ));
    let payload_only = Archive::open(zip_of(
        &[("libcalc.so", Some(b"\x7fELF")), ("readme.md", Some(b"hi"))],
        stored(),
    ))
    .unwrap();
    assert!(matches!(
        install_plugin_from_zip(payload_only, Some(calc_metadata()), '/'),
        Err(InstallError::MetadataNotFound)
    ));
    let nothing_parsed = Archive::open(zip_of(&[("readme.md", Some(b"hi"))], stored())).unwrap();
    assert!(matches!(
        install_plugin_from_zip(nothing_parsed, None, '/'),
        Err(InstallError::MetadataNotFound)
    ));
}

#[test]
fn install_refuses_a_descriptor_that_cannot_be_read() {
    let mut bytes = zip_of(&[("metadata.json", Some(b"DESCRIPTOR-BYTES"))], stored());
    let at = position_of(&bytes, b"DESCRIPTOR-BYTES", 0);
    bytes[at] = b'X';
    let archive = Archive::open(bytes).unwrap();
    assert!(matches!(
        install_plugin_from_zip(archive, Some(calc_metadata()), '/'),
        Err(InstallError::MetadataUnreadable)
    ));
}

#[test]
fn install_stops_at_an_entry_that_cannot_be_read() {
    let mut bytes = zip_of(
        &[
            ("metadata.json", Some(CALC_DESCRIPTOR.as_bytes())),
            ("good.txt", Some(b"fine")),
            ("bad.txt", Some(b"BROKEN-CONTENTS")),
            ("late.txt", Some(b"x")),
        ],
        stored(),
    );
    let at = position_of(&bytes, b"BROKEN-CONTENTS", 0);
    bytes[at + 3] = b'!';
    let archive = Archive::open(bytes).unwrap();
    let mut installer = install_plugin_from_zip(archive, Some(calc_metadata()), '/').unwrap();
    assert_eq!(installer.metadata(), &calc_metadata());
    assert_eq!(
        installer.next_step(),
        Ok(Some(InstallStep::ResetDirectory { directory: "calc".to_string() }))
    );
    assert_eq!(
        installer.next_step(),
        Ok(Some(InstallStep::WriteFile {
            path: "metadata.json".to_string(),
            data: CALC_DESCRIPTOR.as_bytes().to_vec(),
        }))
    );
    assert_eq!(
        installer.next_step(),
        Ok(Some(InstallStep::WriteFile { path: "good.txt".to_string(), data: b"fine".to_vec() }))
    );
    assert_eq!(installer.next_step(), Err(InstallError::EntryUnreadable { index: 2 }));
    assert_eq!(installer.next_step(), Err(InstallError::EntryUnreadable { index: 2 }));
    assert!(!installer.is_complete());
}

#[test]
fn install_stops_at_an_entry_that_cannot_be_opened() {
    let mut bytes = zip_of(
        &[("first.txt", Some(b"1")), ("metadata.json", Some(CALC_DESCRIPTOR.as_bytes()))],
        stored(),
    );
    let central = position_of(&bytes, b"PK\x01\x02", 0);
    bytes[central + 10] = 12;
    let archive = Archive::open(bytes).unwrap();
    let mut installer = install_plugin_from_zip(archive, Some(calc_metadata()), '/').unwrap();
    assert_eq!(
        installer.next_step(),
        Ok(Some(InstallStep::ResetDirectory { directory: "calc".to_string() }))
    );
    assert_eq!(installer.next_step(), Err(InstallError::EntryUnreadable { index: 0 }));
    assert!(!installer.is_complete());
}

#[test]
fn installation_is_complete_after_the_last_step() {
    let archive =
        Archive::open(zip_of(&[("metadata.json", Some(CALC_DESCRIPTOR.as_bytes()))], stored()))
            .unwrap();
    let mut installer = install_plugin_from_zip(archive, Some(calc_metadata()), '/').unwrap();
    assert!(!installer.is_complete());
    assert!(installer.next_step().unwrap().is_some());
    assert!(!installer.is_complete());
    assert!(installer.next_step().unwrap().is_some());
    assert!(installer.is_complete());
    assert_eq!(installer.next_step(), Ok(None));
    assert!(installer.is_complete());
    assert_eq!(installer.finish(), calc_metadata());
}

#[test]
fn uninstall_unloads_and_names_the_directory() {
    let mut manager = PluginManager::new("plugins".to_string(), Platform::Unix);
    let report = LoadReport::Opened {
        library: Library::from(libloading::os::unix::Library::this()),
        init: Some(0),
    };
    assert_eq!(manager.load_plugin(calc_metadata(), report), Ok(()));
    assert_eq!(uninstall_plugin(&mut manager, "calc", Some(0)), Ok("calc".to_string()));
    assert_eq!(manager.get_loaded_plugins(), Vec::<PluginMetadata>::new());
    assert_eq!(finish_uninstall(true), Ok(()));
}

#[test]
fn uninstall_of_an_unloaded_plugin_fails() {
    let mut manager = PluginManager::new("plugins".to_string(), Platform::Unix);
    assert_eq!(
        uninstall_plugin(&mut manager, "calc", None),
        Err(RegistryError::NotLoaded { id: "calc".to_string() })
    );
}

#[test]
fn uninstall_passes_on_a_failed_cleanup() {
    let mut manager = PluginManager::new("plugins".to_string(), Platform::Unix);
    let report = LoadReport::Opened {
        library: Library::from(libloading::os::unix::Library::this()),
        init: Some(0),
    };
    assert_eq!(manager.load_plugin(calc_metadata(), report), Ok(()));
    assert_eq!(
        uninstall_plugin(&mut manager, "calc", Some(2)),
        Err(RegistryError::Plugin(PluginError::CleanupError { code: 2 }))
    );
    assert!(!manager.is_registered("calc"));
}

#[test]
fn uninstall_fails_when_the_directory_stays() {
    assert_eq!(finish_uninstall(false), Err(InstallError::DirectoryRemovalFailed));
}

#[test]
fn install_load_call_unload_round_trip() {
    let bytes = zip_of(
        &[
            ("metadata.json", Some(CALC_DESCRIPTOR.as_bytes())),
            ("libcalc.so", Some(b"\x7fELF: calc_add calc_cleanup plugin_init")),
        ],
        deflated(),
    );
    let mut archive = Archive::open(bytes).unwrap();
    let descriptor = find_and_read_metadata(&mut archive).unwrap();
    let mut installer =
        install_plugin_from_zip(archive, parse_descriptor(&descriptor), '/').unwrap();
    let mut disk: Vec<(String, Vec<u8>)> = Vec::new();
    let mut directory = String::new();
    while let Some(step) = installer.next_step().unwrap() {
        match step {
            InstallStep::ResetDirectory { directory: name } => {
                disk.clear();
                directory = name;
            }
            InstallStep::CreateDirectory { .. } => {}
            InstallStep::WriteFile { path, data } => disk.push((format!("{}/{}", directory, path), data)),
        }
    }
    let metadata = installer.finish();
    assert_eq!(metadata, calc_metadata());
    assert_eq!(directory, "calc");

    let mut manager = PluginManager::new("plugins".to_string(), Platform::Unix);
    let plan = manager.plan_load(&metadata).unwrap().unwrap();
    let present: Vec<bool> = plan
        .locations
        .iter()
        .map(|location| {
            let path = match &location.subdirectory {
                Some(subdirectory) => format!("{}/{}", subdirectory, location.file_name),
                None => location.file_name.clone(),
            };
            disk.iter().any(|(written, _)| *written == path)
        })
        .collect();
    assert_eq!(present, vec![true, false]);
    assert_eq!(plan.first_present(&present), Some(0));
    assert_eq!(plan.init_symbol, "plugin_init");
    let report = LoadReport::Opened {
        library: Library::from(libloading::os::unix::Library::this()),
        init: Some(0),
    };
    assert_eq!(manager.load_plugin(metadata, report), Ok(()));
    assert_eq!(manager.get_loaded_plugins(), vec![calc_metadata()]);

    let symbol = manager.function_symbol("calc", "add").unwrap();
    assert_eq!(symbol, "calc_add");
    let arguments = [2, 3];
    let returned = if symbol == "calc_add" { Some(arguments[0] + arguments[1]) } else { None };
    assert_eq!(manager.call_plugin_function("calc", "add", returned), Ok(5));

    assert_eq!(manager.cleanup_symbol("calc"), Ok(Some("calc_cleanup".to_string())));
    assert_eq!(uninstall_plugin(&mut manager, "calc", Some(0)), Ok("calc".to_string()));
    assert_eq!(manager.get_loaded_plugins(), Vec::<PluginMetadata>::new());
    assert_eq!(
        manager.call_plugin_function("calc", "add", Some(5)),
        Err(RegistryError::NotLoaded { id: "calc".to_string() })
    );
}
