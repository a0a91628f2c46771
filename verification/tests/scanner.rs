use mascot_nanai::detect::{
    detect_shiori_type, find_ghost_root_from_descript, guess_shiori_type_from_directory,
    normalize_path, DllEntry, ShioriType,
};
use mascot_nanai::manager::{analyze_ghost_directory, RawBundle, ShioriManager};

fn components(parts: &[&str]) -> Vec<String> {
    parts.iter().map(|p| p.to_string()).collect()
}

#[test]
fn ghost_root_walks_past_master_and_ghost() {
    let root =
        find_ghost_root_from_descript(&components(&["nanai", "ghost", "master", "descript.txt"]))
            .unwrap();
    assert_eq!(root, components(&["nanai"]));
}

#[test]
fn ghost_root_of_direct_manifest_is_its_directory() {
    let root = find_ghost_root_from_descript(&components(&["bundles", "nanai", "descript.txt"]))
        .unwrap();
    assert_eq!(root, components(&["bundles", "nanai"]));
}

#[test]
fn ghost_root_needs_a_parent() {
    assert!(find_ghost_root_from_descript(&components(&["descript.txt"])).is_none());
    assert!(find_ghost_root_from_descript(&Vec::new()).is_none());
}

#[test]
fn family_a_module_is_detected_case_insensitively() {
    let entries = vec![DllEntry {
        file_name: "YAYA.dll".to_string(),
        path: "/g/YAYA.dll".to_string(),
    }];
    let (kind, path) = detect_shiori_type(&entries, &Vec::new());
    assert_eq!(kind, ShioriType::YAYA);
    assert_eq!(path, Some("/g/YAYA.dll".to_string()));
}

#[test]
fn family_b_module_is_detected_case_insensitively() {
    let entries = vec![DllEntry {
        file_name: "Satori.dll".to_string(),
        path: "/g/Satori.dll".to_string(),
    }];
    let (kind, path) = detect_shiori_type(&entries, &Vec::new());
    assert_eq!(kind, ShioriType::SATORIYA);
    assert_eq!(path, Some("/g/Satori.dll".to_string()));
}

#[test]
fn first_matching_module_wins() {
    let entries = vec![
        DllEntry {
            file_name: "notes.txt".to_string(),
            path: "/g/notes.txt".to_string(),
        },
        DllEntry {
            file_name: "aya5.dll".to_string(),
            path: "/g/aya5.dll".to_string(),
        },
        DllEntry {
            file_name: "satori.dll".to_string(),
            path: "/g/satori.dll".to_string(),
        },
    ];
    let (kind, path) = detect_shiori_type(&entries, &Vec::new());
    assert_eq!(kind, ShioriType::YAYA);
    assert_eq!(path, Some("/g/aya5.dll".to_string()));
}

#[test]
fn generic_module_falls_back_to_directory_heuristic() {
    let entries = vec![DllEntry {
        file_name: "shiori.dll".to_string(),
        path: "/g/shiori.dll".to_string(),
    }];
    let markers = components(&["satori_conf.txt"]);
    let (kind, path) = detect_shiori_type(&entries, &markers);
    assert_eq!(kind, ShioriType::SATORIYA);
    assert_eq!(path, Some("/g/shiori.dll".to_string()));
}

#[test]
fn no_module_uses_markers_alone() {
    let (kind, path) = detect_shiori_type(&Vec::new(), &components(&["yaya.txt"]));
    assert_eq!(kind, ShioriType::YAYA);
    assert_eq!(path, None);
}

#[test]
fn nothing_recognizable_is_tagged_unrecognized() {
    let kind = guess_shiori_type_from_directory(&components(&["readme.txt"]));
    assert_eq!(kind, ShioriType::Unknown("No SHIORI detected".to_string()));
}

#[test]
fn uppercase_extension_is_not_a_module() {
    let entries = vec![DllEntry {
        file_name: "YAYA.DLL".to_string(),
        path: "/g/YAYA.DLL".to_string(),
    }];
    let (kind, path) = detect_shiori_type(&entries, &Vec::new());
    assert_eq!(kind, ShioriType::Unknown("No SHIORI detected".to_string()));
    assert_eq!(path, None);
}

fn nanai_bundle(manifest: &[u8]) -> RawBundle {
    RawBundle {
        descript_path: components(&["nanai", "ghost", "master", "descript.txt"]),
        manifest: Some(manifest.to_vec()),
        dll_files: vec![DllEntry {
            file_name: "yaya.dll".to_string(),
            path: "/nanai/ghost/master/yaya.dll".to_string(),
        }],
        marker_files: components(&["descript.txt", "yaya.dll"]),
    }
}

#[test]
fn analyze_builds_a_descriptor() {
    let g = analyze_ghost_directory(&nanai_bundle(b"name,Nanai\r\ncraftman,Someone\r\n")).unwrap();
    assert_eq!(g.name, "nanai");
    assert_eq!(g.path, components(&["nanai"]));
    assert_eq!(g.shiori_type, ShioriType::YAYA);
    assert_eq!(g.shiori_dll, Some("/nanai/ghost/master/yaya.dll".to_string()));
    assert_eq!(g.description, Some("Nanai".to_string()));
    assert_eq!(g.craftman, Some("Someone".to_string()));
    assert_eq!(g.version, None);
}

#[test]
fn shift_jis_manifest_is_decoded() {
    // "name," followed by the Shift-JIS bytes of a katakana NA.
    let g = analyze_ghost_directory(&nanai_bundle(b"name,\x83\x69\r\n")).unwrap();
    assert_eq!(g.description, Some("\u{30CA}".to_string()));
}

#[test]
fn broken_encoding_still_yields_a_descriptor() {
    // A lone Shift-JIS lead byte cannot decode; the descriptor still comes
    // back, with a replacement character in the field.
    let g = analyze_ghost_directory(&nanai_bundle(b"name,\x83\r\ncraftman,Ok\r\n")).unwrap();
    assert_eq!(g.description, Some("\u{FFFD}".to_string()));
    assert_eq!(g.craftman, Some("Ok".to_string()));
}

#[test]
fn unreadable_manifest_skips_the_bundle() {
    let mut bundle = nanai_bundle(b"name,X\r\n");
    bundle.manifest = None;
    assert!(analyze_ghost_directory(&bundle).is_none());
}

#[test]
fn scan_registers_found_bundles() {
    let mut manager = ShioriManager::new();
    manager.scan_ghost_directory(vec![nanai_bundle(b"name,Nanai\r\n")]);
    let all = manager.get_all_ghosts();
    assert_eq!(all.len(), 1);
    let info = manager.get_ghost_info("nanai").unwrap();
    assert_eq!(info.description, Some("Nanai".to_string()));
}

#[test]
fn rescan_drops_removed_bundles() {
    let mut manager = ShioriManager::new();
    manager.scan_ghost_directory(vec![nanai_bundle(b"name,Nanai\r\n")]);
    assert!(manager.get_ghost_info("nanai").is_some());
    manager.scan_ghost_directory(Vec::new());
    assert!(manager.get_ghost_info("nanai").is_none());
    assert!(manager.get_all_ghosts().is_empty());
}

#[test]
fn last_discovered_bundle_of_a_name_wins() {
    let mut manager = ShioriManager::new();
    manager.scan_ghost_directory(vec![
        nanai_bundle(b"name,First\r\n"),
        nanai_bundle(b"name,Second\r\n"),
    ]);
    let all = manager.get_all_ghosts();
    assert_eq!(all.len(), 1);
    let info = manager.get_ghost_info("nanai").unwrap();
    assert_eq!(info.description, Some("Second".to_string()));
}

#[test]
fn normalize_resolves_dot_and_dotdot() {
    assert_eq!(
        normalize_path(&components(&["a", "b", "..", ".", "c"])),
        components(&["a", "c"])
    );
    assert_eq!(normalize_path(&components(&["..", "a"])), components(&["a"]));
    assert_eq!(normalize_path(&Vec::new()), components(&[]));
}
