use lpmbox::paths::{
    adb_key_path, backup_root, config_root, directory_move_action, embedded_tools_root, file_move_action,
    language_config_path, legacy_config_root, local_data_root, log_dir, lpmbox_data_root,
    migrate_legacy_user_data, mtk_driver_dir, mtk_driver_zip_path, proinfo_backup_path,
    readback_config_xml_path, runtime_adb_key_path, runtime_directories, runtime_root, spflashtoolv6_dir,
    spflashtoolv6_zip_path, spft_log_dir, stable_adb_key_dir, stable_adb_key_path, tool_dir,
    tool_download_dir, vc_redist_x64_path, vc_redist_x86_path, BaseDirs, DirectoryMoveAction,
    FileMoveAction, MigrationStep,
};

fn p(parts: &[&str]) -> Vec<String> {
    parts.iter().map(|s| s.to_string()).collect()
}

fn dirs() -> BaseDirs {
    BaseDirs { runtime_root: p(&["/", "opt", "lpm"]), data_local_dir: Some(p(&["/", "home", "u", ".local", "share"])) }
}

#[test]
fn configuration_paths_are_below_the_local_data_directory() {
    let d = dirs();
    assert_eq!(local_data_root(&d), p(&["/", "home", "u", ".local", "share"]));
    assert_eq!(config_root(&d), p(&["/", "home", "u", ".local", "share", "dwas_kr"]));
    assert_eq!(lpmbox_data_root(&d), p(&["/", "home", "u", ".local", "share", "dwas_kr", "LPMBox"]));
    assert_eq!(legacy_config_root(&d), p(&["/", "home", "u", ".local", "share", "LPMBox"]));
    assert_eq!(language_config_path(&d), p(&["/", "home", "u", ".local", "share", "dwas_kr", "language.txt"]));
    assert_eq!(stable_adb_key_dir(&d), p(&["/", "home", "u", ".local", "share", "dwas_kr", "adb"]));
    assert_eq!(stable_adb_key_path(&d), p(&["/", "home", "u", ".local", "share", "dwas_kr", "adb", "adbkey"]));
    assert_eq!(
        embedded_tools_root(&d),
        p(&["/", "home", "u", ".local", "share", "dwas_kr", "LPMBox", "embedded_tools"])
    );
    assert_eq!(spflashtoolv6_dir(&d), embedded_tools_root(&d));
}

#[test]
fn local_data_falls_back_to_the_runtime_root() {
    let d = BaseDirs { runtime_root: p(&["C:", "lpm"]), data_local_dir: None };
    assert_eq!(config_root(&d), p(&["C:", "lpm", "dwas_kr"]));
}

#[test]
fn tool_paths_are_below_the_runtime_root() {
    let d = dirs();
    assert_eq!(runtime_adb_key_path(&d), p(&["/", "opt", "lpm", "adb", "adbkey"]));
    assert_eq!(tool_dir(&d), p(&["/", "opt", "lpm", "tools"]));
    assert_eq!(tool_download_dir(&d), p(&["/", "opt", "lpm", "tools", "download"]));
    assert_eq!(
        spflashtoolv6_zip_path(&d),
        p(&["/", "opt", "lpm", "tools", "download", "SP_Flash_Tool_V6.2404_Win.zip"])
    );
    assert_eq!(mtk_driver_dir(&d), p(&["/", "opt", "lpm", "tools", "MTK-Driver"]));
    assert_eq!(mtk_driver_zip_path(&d), p(&["/", "opt", "lpm", "tools", "download", "MTK-Driver-v5.1632.zip"]));
    assert_eq!(vc_redist_x86_path(&d), p(&["/", "opt", "lpm", "tools", "download", "VC_redist.x86.exe"]));
    assert_eq!(vc_redist_x64_path(&d), p(&["/", "opt", "lpm", "tools", "download", "VC_redist.x64.exe"]));
    assert_eq!(log_dir(&d), p(&["/", "opt", "lpm", "logs"]));
    assert_eq!(backup_root(&d), p(&["/", "opt", "lpm", "backup"]));
    assert_eq!(spft_log_dir(&d), p(&["/", "opt", "lpm", "backup", "spft_log"]));
    assert_eq!(proinfo_backup_path(&d), p(&["/", "opt", "lpm", "backup", "proinfo"]));
    assert_eq!(readback_config_xml_path(&d), p(&["/", "opt", "lpm", "readback_config.xml"]));
}

#[test]
fn runtime_root_choice() {
    let cwd = Some(p(&["/", "src"]));
    let exe = Some(p(&["/", "bin"]));
    let tmp = p(&["/", "tmp"]);
    assert_eq!(runtime_root(cwd.clone(), true, exe.clone(), tmp.clone()), p(&["/", "src"]));
    assert_eq!(runtime_root(cwd.clone(), false, exe.clone(), tmp.clone()), p(&["/", "bin"]));
    assert_eq!(runtime_root(cwd.clone(), false, None, tmp.clone()), p(&["/", "src"]));
    assert_eq!(runtime_root(None, true, None, tmp.clone()), p(&["/", "tmp"]));
}

#[test]
fn directories_created_before_a_run() {
    let d = dirs();
    assert_eq!(
        runtime_directories(&d),
        vec![tool_dir(&d), tool_download_dir(&d), backup_root(&d), log_dir(&d), stable_adb_key_dir(&d), lpmbox_data_root(&d)]
    );
}

#[test]
fn migration_plan_of_an_earlier_release() {
    let d = dirs();
    assert!(migrate_legacy_user_data(&d, false).is_empty());
    let steps = migrate_legacy_user_data(&d, true);
    assert_eq!(steps.len(), 6);
    let legacy = legacy_config_root(&d);
    match &steps[0] {
        MigrationStep::MoveFile { source, destination } => {
            assert_eq!(*source, [legacy.clone(), p(&["adb", "adbkey"])].concat());
            assert_eq!(*destination, stable_adb_key_path(&d));
        }
        _ => panic!("first step moves the key"),
    }
    match &steps[1] {
        MigrationStep::MoveFile { source, destination } => {
            assert_eq!(*source, [legacy.clone(), p(&["adb", "adbkey.pub"])].concat());
            assert_eq!(*destination, [stable_adb_key_dir(&d), p(&["adbkey.pub"])].concat());
        }
        _ => panic!("second step moves the public key"),
    }
    match &steps[3] {
        MigrationStep::MoveDirectoryContents { source, destination } => {
            assert_eq!(*source, [legacy.clone(), p(&["embedded_tools"])].concat());
            assert_eq!(*destination, embedded_tools_root(&d));
        }
        _ => panic!("fourth step moves the tools"),
    }
    match &steps[5] {
        MigrationStep::RemoveEmptyDirectory { path } => assert_eq!(*path, legacy),
        _ => panic!("last step removes the legacy directory"),
    }
}

#[test]
fn file_and_directory_moves() {
    assert_eq!(file_move_action(false, true), FileMoveAction::Nothing);
    assert_eq!(file_move_action(true, true), FileMoveAction::RemoveSource);
    assert_eq!(file_move_action(true, false), FileMoveAction::Rename);
    assert_eq!(directory_move_action(false, false), DirectoryMoveAction::Nothing);
    assert_eq!(directory_move_action(true, false), DirectoryMoveAction::RenameOrMerge);
    assert_eq!(directory_move_action(true, true), DirectoryMoveAction::Merge);
}

#[test]
fn adb_key_choice() {
    let d = dirs();
    assert_eq!(adb_key_path(&d, true, true, false), stable_adb_key_path(&d));
    assert_eq!(adb_key_path(&d, false, false, false), stable_adb_key_path(&d));
    assert_eq!(adb_key_path(&d, false, true, true), stable_adb_key_path(&d));
    assert_eq!(adb_key_path(&d, false, true, false), runtime_adb_key_path(&d));
}
