use voice_vibe_local::workspace::{
    app_data_dir_for, app_subdir, db_path, find_source_file, sanitize_workspace_folder,
    strict_workspace_dir_path, strict_workspace_folder, workspace_dir_path,
};

#[test]
fn the_test_override_wins_over_the_user_directories() {
    assert_eq!(
        app_data_dir_for(Some("/tmp/vv"), Some("/Users/a/Documents"), Some("/Users/a")),
        Ok("/tmp/vv".to_string())
    );
}

#[test]
fn data_lives_in_the_documents_directory_by_default() {
    assert_eq!(
        app_data_dir_for(None, Some("/Users/a/Documents"), Some("/Users/a")),
        Ok("/Users/a/Documents/Voice Vibe Local".to_string())
    );
}

#[test]
fn the_home_directory_is_the_fallback() {
    assert_eq!(
        app_data_dir_for(None, None, Some("/home/a/")),
        Ok("/home/a/.voice-vibe-local".to_string())
    );
}

#[test]
fn no_known_directory_is_an_error() {
    assert_eq!(
        app_data_dir_for(None, None, None),
        Err("Failed to get app data directory".to_string())
    );
}

#[test]
fn named_directories_and_the_database_sit_in_the_data_directory() {
    assert_eq!(app_subdir("/data", "workspaces"), "/data/workspaces");
    assert_eq!(app_subdir("/data/", "temp"), "/data/temp");
    assert_eq!(db_path("/data"), "/data/app.sqlite");
}

#[test]
fn strict_workspace_paths_accept_only_canonical_folders() {
    assert_eq!(
        strict_workspace_dir_path("/w", "team_notes-1"),
        Ok("/w/team_notes-1".to_string())
    );
    assert_eq!(
        strict_workspace_dir_path("/w", "  "),
        Err("workspaceFolder is required".to_string())
    );
    assert_eq!(
        strict_workspace_dir_path("/w", "../etc"),
        Err("workspaceFolder contains invalid characters".to_string())
    );
    assert_eq!(workspace_dir_path("/w", "a b"), "/w/a-b");
}

#[test]
fn workspace_paths_and_sources() {
    assert_eq!(workspace_dir_path("/w", " ../x y "), "/w/x-y");
    assert_eq!(workspace_dir_path("/w/", "..."), "/w/local-workspace");
    assert_eq!(
        find_source_file("/definitely/not/here.wav"),
        Err("Source file not found at: /definitely/not/here.wav".to_string())
    );
    assert_eq!(find_source_file("/"), Ok("/".to_string()));
}

#[test]
fn an_accepted_strict_path_is_the_lenient_path() {
    for folder in ["team", "  notes_2024 ", "项目-a"] {
        assert_eq!(
            strict_workspace_dir_path("/w", folder),
            Ok(workspace_dir_path("/w", folder))
        );
    }
}

#[test]
fn a_sanitised_folder_is_canonical() {
    for raw in ["  My Notes/../x ", "---", "", "项目 2024", "a_b-c", " .hidden. "] {
        let once: String = sanitize_workspace_folder(raw).into_iter().collect();
        let twice: String = sanitize_workspace_folder(&once).into_iter().collect();
        assert_eq!(twice, once);
        let strict: String = strict_workspace_folder(&once).unwrap().into_iter().collect();
        assert_eq!(strict, once);
        let lenient = workspace_dir_path("/data/workspaces", raw);
        assert_eq!(workspace_dir_path("/data/workspaces", &once), lenient);
        assert_eq!(strict_workspace_dir_path("/data/workspaces", &once), Ok(lenient));
    }
    let named: String = sanitize_workspace_folder("  My Notes/../x ").into_iter().collect();
    assert_eq!(named, "My-Notes----x");
    let empty: String = sanitize_workspace_folder("---").into_iter().collect();
    assert_eq!(empty, "local-workspace");
}

#[test]
fn joining_an_absolute_name_replaces_the_directory() {
    assert_eq!(app_subdir("/data/app", "/elsewhere/temp"), "/elsewhere/temp");
    assert_eq!(app_subdir("/data/app/", "temp"), "/data/app/temp");
    assert_eq!(app_subdir("", "temp"), "temp");
}
