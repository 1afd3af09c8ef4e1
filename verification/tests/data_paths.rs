use flowsight_agent::paths::{
    agent_error_log_path, app_data_dir, auth_log_path, bundled_local_llm_dir, choose_local_llm_dir, crash_log_path_or_fallback,
    create_dir_error, db_path, db_path_or_fallback, get_flowsight_user_paths, join_path, local_llm_storage_dir,
    missing_weights_error, read_screenshots_error, screenshots_tmp_dir, server_log_path, should_prune_screenshot,
    write_probe_error, write_probe_path,
};
use flowsight_agent::platform::Platform;

const L: Platform = Platform::Linux;
const W: Platform = Platform::Windows;

#[test]
fn joining_like_pathbuf() {
    assert_eq!(join_path("/home/u/.local/share", "FlowSight", L), "/home/u/.local/share/FlowSight");
    assert_eq!(join_path("/data/", "x.db", L), "/data/x.db");
    assert_eq!(join_path("", "x.db", L), "x.db");
    assert_eq!(join_path("C:\\Users\\u\\AppData\\Local", "FlowSight", W), "C:\\Users\\u\\AppData\\Local\\FlowSight");
    assert_eq!(join_path("C:\\data\\", "x.db", W), "C:\\data\\x.db");
    assert_eq!(join_path("C:/data/", "x.db", W), "C:/data/x.db");
    assert_eq!(join_path("C:", "x.db", W), "C:x.db");
    assert_eq!(join_path("a\\b", "x.db", L), "a\\b/x.db");
}

#[test]
fn data_dir_and_files() {
    let d = app_data_dir(Some("/home/u/.local/share"), L);
    assert_eq!(d, Ok("/home/u/.local/share/FlowSight".to_string()));
    assert_eq!(app_data_dir(None, L), Err("No local data dir available".to_string()));
    let d = Ok("/d/FlowSight".to_string());
    assert_eq!(db_path(d.clone(), L), Ok("/d/FlowSight/dev-agent.db".to_string()));
    assert_eq!(server_log_path(d.clone(), L), Ok("/d/FlowSight/server.log".to_string()));
    assert_eq!(auth_log_path(d.clone(), L), Ok("/d/FlowSight/auth.log".to_string()));
    assert_eq!(agent_error_log_path(d.clone(), L), Ok("/d/FlowSight/agent_error.log".to_string()));
    assert_eq!(screenshots_tmp_dir(d.clone(), L), Ok("/d/FlowSight/screenshots_tmp".to_string()));
    assert_eq!(local_llm_storage_dir(d.clone(), L), Ok("/d/FlowSight/local_llm".to_string()));
    assert_eq!(write_probe_path("/d/FlowSight", L), "/d/FlowSight/.flowsight_fs_write_probe");
    let e: Result<String, String> = Err("boom".to_string());
    assert_eq!(db_path(e.clone(), L), Err("boom".to_string()));
    assert_eq!(server_log_path(e, L), Err("boom".to_string()));
}

#[test]
fn fallbacks_use_working_directory() {
    assert_eq!(db_path_or_fallback(Err("x".to_string()), L), "dev-agent.db");
    assert_eq!(crash_log_path_or_fallback(Err("x".to_string()), W), "crash.log");
    assert_eq!(db_path_or_fallback(Ok("C:\\A\\FlowSight".to_string()), W), "C:\\A\\FlowSight\\dev-agent.db");
    assert_eq!(crash_log_path_or_fallback(Ok("/d".to_string()), L), "/d/crash.log");
}

#[test]
fn error_texts() {
    assert_eq!(create_dir_error("/d/FlowSight", "Permission denied (os error 13)"), "Failed to create \"/d/FlowSight\": Permission denied (os error 13)");
    assert_eq!(
        write_probe_error("C:\\A\\FlowSight", "Access is denied. (os error 5)"),
        "Cannot write application data under C:\\A\\FlowSight (Access is denied. (os error 5)). On Windows 11 this may be Controlled Folder Access or Defender blocking an unsigned app—allow FlowSight or add an exclusion for this folder."
    );
    assert_eq!(read_screenshots_error("gone"), "Failed to read screenshots_tmp: gone");
    assert_eq!(
        missing_weights_error("/opt/app/resources/local_llm", "model.gguf", "mmproj.gguf"),
        "local_llm vision weights not found (looked in bundled resources at \"/opt/app/resources/local_llm\" and dev tree). Run scripts/fetch-models or place model.gguf and mmproj.gguf under local_llm/."
    );
    assert_eq!(bundled_local_llm_dir(Ok("/opt/app/resources".to_string()), L), Ok("/opt/app/resources/local_llm".to_string()));
    assert_eq!(bundled_local_llm_dir(Err("no".to_string()), L), Err("resource_dir unavailable: no".to_string()));
}

#[test]
fn pruning_rule() {
    assert!(should_prune_screenshot("capture_20240101_120000.png", Some(10), 5));
    assert!(!should_prune_screenshot("capture_20240101_120000.png", Some(5), 5));
    assert!(!should_prune_screenshot("capture_x.png", None, 0));
    assert!(!should_prune_screenshot("keep.png", Some(100), 5));
    assert!(!should_prune_screenshot("captur", Some(100), 5));
}

#[test]
fn user_paths() {
    let u = get_flowsight_user_paths(Ok("/d/FlowSight".to_string()), L).ok().unwrap();
    assert_eq!(u.app_data_dir, "/d/FlowSight");
    assert_eq!(u.server_log, "/d/FlowSight/server.log");
    assert_eq!(u.auth_log, "/d/FlowSight/auth.log");
    assert_eq!(u.agent_error_log, "/d/FlowSight/agent_error.log");
    assert!(get_flowsight_user_paths(Err("e".to_string()), L).is_err());
}

#[test]
fn path_quoting_matches_path_debug() {
    let e = create_dir_error("/tmp/it's", "denied");
    assert_eq!(e, format!("Failed to create {:?}: denied", std::path::Path::new("/tmp/it's")));
}

#[test]
fn weights_folder_choice() {
    let ok = choose_local_llm_dir("/r/local_llm".to_string(), true, Some("/dev/local_llm".to_string()), "a.gguf", "b.gguf");
    assert_eq!(ok, Ok("/r/local_llm".to_string()));
    let dev = choose_local_llm_dir("/r/local_llm".to_string(), false, Some("/dev/local_llm".to_string()), "a.gguf", "b.gguf");
    assert_eq!(dev, Ok("/dev/local_llm".to_string()));
    let none = choose_local_llm_dir("/r/local_llm".to_string(), false, None, "a.gguf", "b.gguf");
    assert_eq!(none, Err(missing_weights_error("/r/local_llm", "a.gguf", "b.gguf")));
}
