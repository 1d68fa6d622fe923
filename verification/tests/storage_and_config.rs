//! Shader snapshots, storage decisions and the pane names.

use shaderwheels_logic::panes::PaneType;
use shaderwheels_logic::shader_config::{ShaderBackend, ShaderConfig, ShaderLanguage};
use shaderwheels_logic::shader_content_manager::{
    ConcreteOrUndecidedLocation, ShaderFileLocation, ShaderInfo, ShaderStorageConnection,
    ShaderStorageConnectionManager, ShaderStorageLocation, ShaderStorageTypePreference,
};

fn info(contents: &str, name: &str) -> ShaderInfo {
    ShaderInfo { contents: String::from(contents), name: String::from(name) }
}

#[test]
fn default_config_is_the_fragment_starter() {
    let cfg = ShaderConfig::default();
    assert!(matches!(cfg.language, ShaderLanguage::Wgsl));
    assert!(matches!(cfg.backend, ShaderBackend::FullFragment));
    assert!(cfg.content.contains("fs_main"));
}

#[test]
fn config_duplicate_preserves_content() {
    let cfg = ShaderConfig {
        content: String::from("abc"),
        language: ShaderLanguage::Wgsl,
        backend: ShaderBackend::General,
    };
    let copy = cfg.duplicate();
    assert_eq!(copy.content, "abc");
    assert!(matches!(copy.backend, ShaderBackend::General));
}

#[test]
fn pane_names_are_fixed() {
    assert_eq!(PaneType::CodeEditor.name(), "Editor");
    assert_eq!(PaneType::ErrorViewer.name(), "Error Viewer");
    assert_eq!(PaneType::RenderTarget.name(), "Render Viewer");
}

#[test]
fn default_shader_info_is_the_compute_starter() {
    let d = ShaderInfo::default();
    assert_eq!(d.name, "Untitled Shader");
    assert!(d.contents.contains("@compute"));
}

#[test]
fn saving_needed_compares_content() {
    let conn = ShaderStorageConnection::new(
        ConcreteOrUndecidedLocation::default(),
        info("a", "n"),
    );
    assert!(!conn.saving_needed(&info("a", "n")));
    assert!(conn.saving_needed(&info("b", "n")));
    assert!(conn.saving_needed(&info("a", "m")));
}

#[test]
fn eligibility_requires_dirty_and_idle() {
    let mut conn = ShaderStorageConnection::new(
        ConcreteOrUndecidedLocation::default(),
        info("a", "n"),
    );
    assert!(!conn.eligible_to_save(&info("a", "n")));
    assert!(conn.eligible_to_save(&info("b", "n")));
    conn.currently_saving = true;
    assert!(!conn.eligible_to_save(&info("b", "n")));
}

#[test]
fn start_save_marks_busy_and_hands_out_a_copy() {
    let mut mgr = ShaderStorageConnectionManager {
        connection: ShaderStorageConnection::new(
            ConcreteOrUndecidedLocation::default(),
            info("a", "n"),
        ),
        channel: None,
    };
    // clean content: nothing to do
    assert!(mgr.start_save(&info("a", "n")).is_none());
    assert!(mgr.channel.is_none());

    let copy = mgr.start_save(&info("b", "n")).expect("dirty content starts a save");
    assert!(!copy.currently_saving);
    assert_eq!(copy.get_content().contents, "a");
    assert!(mgr.connection.currently_saving);
    assert!(mgr.channel.is_some());

    // a save in flight blocks the next one
    assert!(mgr.start_save(&info("c", "n")).is_none());
}

#[test]
fn update_folds_a_successful_save_back_in() {
    let mut mgr = ShaderStorageConnectionManager {
        connection: ShaderStorageConnection::new(
            ConcreteOrUndecidedLocation::default(),
            info("a", "n"),
        ),
        channel: None,
    };
    let _copy = mgr.start_save(&info("b", "n")).unwrap();

    // no outcome yet: nothing changes
    mgr.update();
    assert!(mgr.connection.currently_saving);

    let settled = ShaderStorageLocation::File(ShaderFileLocation {
        path: String::from("shader.shwl"),
    });
    let outcome = ShaderStorageConnection::saved(settled, info("b", "n"));
    mgr.channel.as_mut().unwrap().send(Some(outcome));
    mgr.update();
    assert!(!mgr.connection.currently_saving);
    assert_eq!(mgr.connection.get_content().contents, "b");
    assert!(mgr.channel.is_none());
    assert!(matches!(
        mgr.connection.get_location(),
        ConcreteOrUndecidedLocation::Concrete(ShaderStorageLocation::File(_))
    ));
}

#[test]
fn update_clears_the_busy_mark_on_a_failed_save() {
    let mut mgr = ShaderStorageConnectionManager {
        connection: ShaderStorageConnection::new(
            ConcreteOrUndecidedLocation::Undecided(ShaderStorageTypePreference::File),
            info("a", "n"),
        ),
        channel: None,
    };
    let _copy = mgr.start_save(&info("b", "n")).unwrap();
    mgr.channel.as_mut().unwrap().send(None);
    mgr.update();
    assert!(!mgr.connection.currently_saving);
    assert_eq!(mgr.connection.get_content().contents, "a");
    assert!(mgr.channel.is_none());
}
