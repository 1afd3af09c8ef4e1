use flowsight_agent::portal_reply::{gnome_shell_candidate_paths, paths_from_gdbus_screenshot_reply, same_path};

#[test]
fn reply_with_filename_used() {
    let reply = "(true, '/home/u/Pictures/Screenshot.png')\n";
    assert_eq!(paths_from_gdbus_screenshot_reply(reply), vec!["/home/u/Pictures/Screenshot.png".to_string()]);
}

#[test]
fn reply_paths_are_trimmed_filtered_sorted_and_deduplicated() {
    let reply = "(true, '  /b/shot.PNG ', \"/a/x.jpg\", 'relative.png', '/c/y.gif', \"/a/x.jpg\", '/d/z.JPEG')";
    assert_eq!(
        paths_from_gdbus_screenshot_reply(reply),
        vec!["/a/x.jpg".to_string(), "/b/shot.PNG".to_string(), "/d/z.JPEG".to_string()]
    );
}

#[test]
fn reply_without_paths() {
    assert!(paths_from_gdbus_screenshot_reply("").is_empty());
    assert!(paths_from_gdbus_screenshot_reply("Error: GDBus.Error:org.freedesktop.DBus.Error.AccessDenied").is_empty());
}

#[test]
fn paths_compare_component_by_component() {
    // "/a/b" sorts before "/a-b" as a path ("a" < "a-b"), though not as a string.
    let reply = "'/a-b.png' '/a/b.png'";
    assert_eq!(
        paths_from_gdbus_screenshot_reply(reply),
        vec!["/a/b.png".to_string(), "/a-b.png".to_string()]
    );
    // Repeated separators and `.` components name the same path; the first spelling stays.
    let reply = "'/x//y/./s.png' \"/x/y/s.png\"";
    assert_eq!(paths_from_gdbus_screenshot_reply(reply), vec!["/x//y/./s.png".to_string()]);
}

#[test]
fn same_path_ignores_empty_and_dot_components() {
    assert!(same_path("/tmp/a.png", "/tmp//a.png"));
    assert!(same_path("/tmp/./a.png", "/tmp/a.png"));
    assert!(!same_path("/tmp/../a.png", "/a.png"));
    assert!(!same_path("/tmp/a.png", "tmp/a.png"));
    assert!(!same_path("./a", "a"));
}

#[test]
fn requested_file_is_added_when_missing() {
    let named = vec!["/home/u/s.png".to_string()];
    assert_eq!(
        gnome_shell_candidate_paths(named.clone(), "/tmp/flowsight_gnome_dbus_1.png"),
        vec!["/home/u/s.png".to_string(), "/tmp/flowsight_gnome_dbus_1.png".to_string()]
    );
    assert_eq!(gnome_shell_candidate_paths(named.clone(), "/home//u/s.png"), named);
    assert_eq!(gnome_shell_candidate_paths(vec![], "/tmp/t.png"), vec!["/tmp/t.png".to_string()]);
}
