use mascot_nanai::detect::DllEntry;
use mascot_nanai::engine::{EngineType, IntegratedShiori, SatoriyaEngine};
use mascot_nanai::errors::ShioriError;
use mascot_nanai::interface::ShioriInterface;
use mascot_nanai::manager::{LoadOutcomes, RawBundle, ShioriManager};

fn components(parts: &[&str]) -> Vec<String> {
    parts.iter().map(|p| p.to_string()).collect()
}

fn bundle(name: &str, manifest: &[u8]) -> RawBundle {
    RawBundle {
        descript_path: components(&[name, "ghost", "master", "descript.txt"]),
        manifest: Some(manifest.to_vec()),
        dll_files: vec![DllEntry {
            file_name: "yaya.dll".to_string(),
            path: format!("/{}/yaya.dll", name),
        }],
        marker_files: components(&["descript.txt", "yaya.dll"]),
    }
}

fn good_outcomes() -> LoadOutcomes {
    LoadOutcomes {
        init_status: 1,
        set_dir_status: 1,
        load_status: 1,
        boot_reply: Some(b"SHIORI/3.0 200 OK\r\n\r\n".to_vec()),
    }
}

fn manager_with(names: &[&str]) -> ShioriManager {
    let mut manager = ShioriManager::new();
    let bundles = names.iter().map(|n| bundle(n, b"name,Test\r\n")).collect();
    manager.scan_ghost_directory(bundles);
    manager
}

#[test]
fn request_while_idle_is_rejected() {
    let mut manager = manager_with(&["x"]);
    let r = manager.send_request("GET SHIORI/3.0 SHIORI/3.0\r\n\r\n", Some(b"ok".to_vec()));
    assert!(matches!(r, Err(ShioriError::NotInitialized)));
    let r = manager.send_event("OnBoot", &Vec::new(), Some(b"ok".to_vec()));
    assert!(matches!(r, Err(ShioriError::NotInitialized)));
    assert!(!manager.is_shiori_loaded());
}

#[test]
fn load_then_status_then_unload_round_trip() {
    let mut manager = manager_with(&["x"]);
    assert!(!manager.is_shiori_loaded());
    assert_eq!(manager.current_ghost(), None);

    manager.load_ghost("x", good_outcomes()).unwrap();
    assert!(manager.is_shiori_loaded());
    assert_eq!(manager.current_ghost(), Some("x".to_string()));

    manager
        .unload_current_ghost(Some(b"SHIORI/3.0 200 OK\r\n\r\n".to_vec()), 1)
        .unwrap();
    assert!(!manager.is_shiori_loaded());
    assert_eq!(manager.current_ghost(), None);

    // A second unload is a safe no-op.
    manager.unload_current_ghost(None, 1).unwrap();
    assert!(!manager.is_shiori_loaded());
    assert_eq!(manager.current_ghost(), None);
}

#[test]
fn loading_another_bundle_replaces_the_active_one() {
    let mut manager = manager_with(&["x", "y"]);
    manager.load_ghost("x", good_outcomes()).unwrap();
    assert_eq!(manager.current_ghost(), Some("x".to_string()));
    manager.load_ghost("y", good_outcomes()).unwrap();
    assert_eq!(manager.current_ghost(), Some("y".to_string()));
    assert!(manager.is_shiori_loaded());
}

#[test]
fn missing_bundle_is_reported_by_name() {
    let mut manager = manager_with(&["x"]);
    let r = manager.load_ghost("nope", good_outcomes());
    match r {
        Err(ShioriError::GhostNotFound(name)) => assert_eq!(name, "nope"),
        other => panic!("unexpected: {:?}", other),
    }
    assert!(!manager.is_shiori_loaded());
}

#[test]
fn initialize_failure_leaves_idle() {
    let mut manager = manager_with(&["x"]);
    let mut out = good_outcomes();
    out.init_status = 0;
    let r = manager.load_ghost("x", out);
    assert!(matches!(r, Err(ShioriError::BoundaryFailure(0))));
    assert!(!manager.is_shiori_loaded());
    assert_eq!(manager.current_ghost(), None);
}

#[test]
fn load_failure_tears_down() {
    let mut manager = manager_with(&["x"]);
    let mut out = good_outcomes();
    out.load_status = -3;
    let r = manager.load_ghost("x", out);
    assert!(matches!(r, Err(ShioriError::BoundaryFailure(-3))));
    assert!(!manager.is_shiori_loaded());
}

#[test]
fn null_boot_reply_tears_down() {
    let mut manager = manager_with(&["x"]);
    let mut out = good_outcomes();
    out.boot_reply = None;
    let r = manager.load_ghost("x", out);
    assert!(matches!(r, Err(ShioriError::NullResponse)));
    assert!(!manager.is_shiori_loaded());
}

#[test]
fn events_reach_the_engine_once_active() {
    let mut manager = manager_with(&["x"]);
    manager.load_ghost("x", good_outcomes()).unwrap();
    let reply = manager
        .on_mouse_click(10, 20, "left", Some(b"\\h\\s[0]Hi!\\e".to_vec()))
        .unwrap();
    assert_eq!(reply, "\\h\\s[0]Hi!\\e");
    let reply = manager.on_second_change(Some(b"tick".to_vec())).unwrap();
    assert_eq!(reply, "tick");
}

#[test]
fn reply_bytes_are_read_as_lossy_utf8() {
    let mut manager = manager_with(&["x"]);
    manager.load_ghost("x", good_outcomes()).unwrap();
    let reply = manager
        .send_request(
            "GET SHIORI/3.0 SHIORI/3.0\r\n\r\n",
            Some(vec![0xff, b'h', b'i']),
        )
        .unwrap();
    assert_eq!(reply, "\u{FFFD}hi");
}

#[test]
fn rescan_keeps_the_active_engine() {
    let mut manager = manager_with(&["x"]);
    manager.load_ghost("x", good_outcomes()).unwrap();
    manager.scan_ghost_directory(Vec::new());
    assert!(manager.is_shiori_loaded());
    assert_eq!(manager.current_ghost(), Some("x".to_string()));
    assert!(manager.get_ghost_info("x").is_none());
}

#[test]
fn integrated_shiori_detects_and_initializes() {
    let mut engine = IntegratedShiori::new();
    let markers = components(&["yaya.txt"]);
    let family = engine.initialize_auto("ghosts/x", &markers, 1, 1).unwrap();
    assert_eq!(family, EngineType::YAYA);
    assert_eq!(engine.current_engine().unwrap(), EngineType::YAYA);
    assert_eq!(engine.load(1).unwrap(), 1);
    let reply = engine
        .request(
            "GET SHIORI/3.0 SHIORI/3.0\r\nID: OnBoot\r\n\r\n",
            Some(b"ok".to_vec()),
        )
        .unwrap();
    assert_eq!(reply, "ok");
    assert_eq!(engine.unload(1).unwrap(), 1);
    engine.finalize().unwrap();
    assert_eq!(engine.current_engine().unwrap(), EngineType::NoEngine);
}

#[test]
fn family_b_markers_are_recognized_but_unsupported() {
    let mut engine = IntegratedShiori::new();
    let markers = components(&["satori.dll"]);
    let r = engine.initialize_auto("ghosts/x", &markers, 1, 1);
    assert!(matches!(r, Err(ShioriError::NotSupported)));
}

#[test]
fn no_markers_means_no_engine() {
    let mut engine = IntegratedShiori::new();
    let r = engine.initialize_auto("ghosts/x", &Vec::new(), 1, 1);
    assert!(matches!(r, Err(ShioriError::NoEngineDetected)));
}

#[test]
fn request_before_initialize_fails() {
    let mut engine = IntegratedShiori::new();
    let r = engine.request("GET SHIORI/3.0 SHIORI/3.0\r\n\r\n", Some(b"ok".to_vec()));
    assert!(matches!(r, Err(ShioriError::NotInitialized)));
}

#[test]
fn family_b_operations_all_fail() {
    assert!(matches!(
        SatoriyaEngine::initialize("dir"),
        Err(ShioriError::NotSupported)
    ));
    assert!(matches!(SatoriyaEngine::load(), Err(ShioriError::NotSupported)));
    assert!(matches!(SatoriyaEngine::unload(), Err(ShioriError::NotSupported)));
    assert!(matches!(
        SatoriyaEngine::request("x"),
        Err(ShioriError::NotSupported)
    ));
}

#[test]
fn interface_guards_its_entry_points() {
    let mut iface = ShioriInterface::new();
    assert!(!iface.is_loaded());
    let r = iface.request("GET SHIORI/3.0 SHIORI/3.0\r\n\r\n", Some(b"ok".to_vec()));
    assert!(matches!(r, Err(ShioriError::NotInitialized)));

    iface.load("ghosts/x", 1).unwrap();
    assert!(iface.is_loaded());
    let r = iface.load("ghosts/x", 1);
    assert!(matches!(r, Err(ShioriError::NotInitialized)));

    let reply = iface
        .request("GET SHIORI/3.0 SHIORI/3.0\r\n\r\n", Some(b"hello".to_vec()))
        .unwrap();
    assert_eq!(reply, "hello");
    let r = iface.request("GET SHIORI/3.0 SHIORI/3.0\r\n\r\n", None);
    assert!(matches!(r, Err(ShioriError::NullResponse)));

    iface.unload(1).unwrap();
    assert!(!iface.is_loaded());
    iface.unload(0).unwrap();
}

#[test]
fn interface_rejects_unencodable_paths() {
    let mut iface = ShioriInterface::new();
    let r = iface.load("ghosts/\u{0}bad", 1);
    assert!(matches!(r, Err(ShioriError::EncodingFailure)));
    assert!(!iface.is_loaded());
}

#[test]
fn interface_surfaces_failure_codes() {
    let mut iface = ShioriInterface::new();
    let r = iface.load("ghosts/x", 0);
    assert!(matches!(r, Err(ShioriError::BoundaryFailure(0))));
    assert!(!iface.is_loaded());
}

#[test]
fn error_messages_carry_their_details() {
    assert_eq!(
        ShioriError::GhostNotFound("nanai".to_string()).message(),
        "Ghost not found: nanai"
    );
    assert_eq!(
        ShioriError::BoundaryFailure(-3).message(),
        "SHIORI boundary call failed: -3"
    );
}

#[test]
fn error_messages_are_nonempty() {
    let errors = [
        ShioriError::LockFailure,
        ShioriError::NotInitialized,
        ShioriError::BoundaryFailure(7),
        ShioriError::NullResponse,
        ShioriError::EncodingFailure,
        ShioriError::NotSupported,
        ShioriError::GhostNotFound("x".to_string()),
        ShioriError::NoEngineDetected,
    ];
    for e in errors {
        assert!(!e.message().is_empty());
    }
}

#[test]
fn family_b_bundle_cannot_be_loaded() {
    let mut manager = ShioriManager::new();
    manager.scan_ghost_directory(vec![RawBundle {
        descript_path: components(&["sat", "ghost", "master", "descript.txt"]),
        manifest: Some(b"name,Sat\r\n".to_vec()),
        dll_files: vec![DllEntry {
            file_name: "satori.dll".to_string(),
            path: "/sat/satori.dll".to_string(),
        }],
        marker_files: components(&["descript.txt", "satori.dll"]),
    }]);
    let r = manager.load_ghost("sat", good_outcomes());
    assert!(matches!(r, Err(ShioriError::NotSupported)));
    assert!(!manager.is_shiori_loaded());
}

#[test]
fn unrecognized_bundle_cannot_be_loaded() {
    let mut manager = ShioriManager::new();
    manager.scan_ghost_directory(vec![RawBundle {
        descript_path: components(&["plain", "descript.txt"]),
        manifest: Some(b"name,Plain\r\n".to_vec()),
        dll_files: Vec::new(),
        marker_files: components(&["descript.txt"]),
    }]);
    let r = manager.load_ghost("plain", good_outcomes());
    assert!(matches!(r, Err(ShioriError::NoEngineDetected)));
    assert!(!manager.is_shiori_loaded());
}

#[test]
fn request_text_with_interior_nul_is_rejected() {
    let mut manager = manager_with(&["x"]);
    manager.load_ghost("x", good_outcomes()).unwrap();
    let r = manager.send_request("bad\u{0}request", Some(b"ok".to_vec()));
    assert!(matches!(r, Err(ShioriError::EncodingFailure)));
    // The engine stays active.
    assert!(manager.is_shiori_loaded());
}
