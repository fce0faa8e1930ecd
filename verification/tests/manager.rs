use std::io::Write;
use vplugin::error::{IoFailure, VPluginError};
use vplugin::manifest::ManifestSource;
use vplugin::plugin::{EntryOutcome, Plugin};
use vplugin::plugin_manager::{contains_nul, PluginManager};

fn demo_package() -> Vec<u8> {
    let mut writer = zip::ZipWriter::new(std::io::Cursor::new(Vec::new()));
    let options = zip::write::SimpleFileOptions::default();
    writer.start_file("metadata.toml", options).unwrap();
    writer.write_all(b"[metadata]\n").unwrap();
    writer.finish().unwrap().into_inner()
}

fn demo_plugin(manager: &mut PluginManager) -> Plugin {
    let (mut plugin, _) = manager.load_plugin("demo.vpl", Ok(demo_package())).unwrap();
    plugin
        .load_metadata(ManifestSource::Text(
            "[metadata]\nname = \"demo\"\nversion = \"1.0\"\nobjfile = \"lib.obj\"\n".to_string(),
        ))
        .unwrap();
    plugin
        .load(Ok(libloading::Library::from(libloading::os::unix::Library::this())))
        .unwrap()
}

#[test]
fn manager_starts_with_the_conventional_entry_point() {
    let manager = PluginManager::new();
    assert_eq!(manager.entry_point(), "vplugin_init");
}

#[test]
fn manager_keeps_the_entry_point_it_is_given() {
    let mut manager = PluginManager::new();
    manager.set_entry_point("app_entry");
    assert_eq!(manager.entry_point(), "app_entry");
}

#[test]
fn manager_rejects_an_empty_path() {
    let mut manager = PluginManager::new();
    let r = manager.load_plugin("", Ok(demo_package()));
    assert_eq!(r.err(), Some(VPluginError::ParametersError));
    let r = manager.load_plugin("", Err(IoFailure::NotFound));
    assert_eq!(r.err(), Some(VPluginError::ParametersError));
}

#[test]
fn manager_stages_a_plugin() {
    let mut manager = PluginManager::new();
    let (plugin, steps) = manager.load_plugin("demo.vpl", Ok(demo_package())).unwrap();
    assert_eq!(plugin.filename(), "demo.vpl");
    assert!(!plugin.is_valid());
    assert_eq!(steps.len(), 1);
    let r = manager.load_plugin("gone.vpl", Err(IoFailure::NotFound));
    assert_eq!(r.err(), Some(VPluginError::NoSuchFile));
}

#[test]
fn manager_names_its_own_entry_point() {
    let mut manager = PluginManager::new();
    manager.set_entry_point("app_entry");
    let mut plugin = demo_plugin(&mut manager);
    assert_eq!(manager.entry_symbol(&plugin).unwrap(), "app_entry");
    assert_eq!(manager.begin_plugin(&mut plugin, EntryOutcome::Returned(0)), Ok(()));
    assert!(plugin.is_started());
    assert_eq!(manager.entry_symbol(&plugin), Err(VPluginError::FailedToInitialize));
    assert_eq!(
        manager.begin_plugin(&mut plugin, EntryOutcome::Returned(0)),
        Err(VPluginError::FailedToInitialize)
    );
}

#[test]
fn manager_refuses_to_start_an_invalid_plugin() {
    let mut manager = PluginManager::new();
    let (mut plugin, _) = manager.load_plugin("demo.vpl", Ok(demo_package())).unwrap();
    assert_eq!(manager.entry_symbol(&plugin), Err(VPluginError::InvalidPlugin));
    assert_eq!(
        manager.begin_plugin(&mut plugin, EntryOutcome::Returned(0)),
        Err(VPluginError::InvalidPlugin)
    );
    assert!(!plugin.is_started());
}

#[test]
fn manager_reports_a_failed_entry_point() {
    let mut manager = PluginManager::new();
    let mut plugin = demo_plugin(&mut manager);
    assert_eq!(
        manager.begin_plugin(&mut plugin, EntryOutcome::Returned(3)),
        Err(VPluginError::FailedToInitialize)
    );
    assert_eq!(
        manager.begin_plugin(&mut plugin, EntryOutcome::Unresolved),
        Err(VPluginError::FailedToInitialize)
    );
    assert!(!plugin.is_started());
}

#[test]
fn manager_hands_out_hooks() {
    let mut manager = PluginManager::new();
    let mut plugin = demo_plugin(&mut manager);
    assert_eq!(manager.get_hook(&plugin, Some(5)), Err(VPluginError::InvalidPlugin));
    manager.begin_plugin(&mut plugin, EntryOutcome::Returned(0)).unwrap();
    assert_eq!(manager.get_hook(&plugin, Some(5)), Ok(5));
    assert_eq!(manager.get_hook::<i32>(&plugin, None), Err(VPluginError::MissingSymbol));
    assert_eq!(manager.get_custom_hook(&plugin, Some('c')), Ok('c'));
    assert_eq!(manager.get_custom_hook::<char>(&plugin, None), Err(VPluginError::MissingSymbol));
}

#[test]
fn register_plugin_changes_nothing() {
    let mut manager = PluginManager::new();
    let mut plugin = demo_plugin(&mut manager);
    assert_eq!(manager.register_plugin(&mut plugin), Ok(()));
    assert!(plugin.is_valid());
    assert!(!plugin.is_started());
    assert_eq!(manager.entry_point(), "vplugin_init");
}

#[test]
fn nul_is_found_in_a_name() {
    assert!(contains_nul("a\0b"));
    assert!(contains_nul("\0"));
    assert!(!contains_nul(""));
    assert!(!contains_nul("vplugin_init"));
}
