use std::cell::RefCell;

use flowsight_agent::capture_tools::{
    distro_install_script, finish_distro_install, install_finished, linux_any_capture_tool_in_path,
    linux_capture_candidates, linux_is_gnome_session, CaptureToolInstaller, DependencyCheck, DependencyState,
};

#[test]
fn candidates_in_order() {
    assert_eq!(
        linux_capture_candidates(),
        vec!["grim", "gnome-screenshot", "spectacle", "scrot", "maim", "import", "magick", "xfce4-screenshooter", "flameshot"]
    );
}

#[test]
fn any_tool_stops_at_first_found() {
    let asked = RefCell::new(Vec::new());
    let found = linux_any_capture_tool_in_path(|c: &str| {
        asked.borrow_mut().push(c.to_string());
        c == "spectacle"
    });
    assert!(found);
    assert_eq!(*asked.borrow(), vec!["grim", "gnome-screenshot", "spectacle"]);
    assert!(!linux_any_capture_tool_in_path(|_c: &str| false));
}

#[test]
fn gnome_desktop_names() {
    assert!(linux_is_gnome_session("GNOME"));
    assert!(linux_is_gnome_session("ubuntu:GNOME"));
    assert!(linux_is_gnome_session("GNOME-Classic:GNOME"));
    assert!(!linux_is_gnome_session("KDE"));
    assert!(!linux_is_gnome_session(""));
}

#[test]
fn install_script_per_manager() {
    assert_eq!(
        distro_install_script(true, &|c: &str| c == "apt-get"),
        Ok("export DEBIAN_FRONTEND=noninteractive; apt-get update -qq && apt-get install -y grim gnome-screenshot scrot".to_string())
    );
    assert_eq!(
        distro_install_script(false, &|c: &str| c == "dnf" || c == "pacman"),
        Ok("dnf install -y scrot maim ImageMagick grim".to_string())
    );
    assert_eq!(
        distro_install_script(false, &|c: &str| c == "pacman"),
        Ok("pacman -S --needed --noconfirm scrot maim imagemagick grim".to_string())
    );
    assert_eq!(
        distro_install_script(false, &|c: &str| c == "zypper"),
        Ok("zypper --non-interactive install -y scrot maim ImageMagick grim".to_string())
    );
    assert_eq!(
        distro_install_script(true, &|_c: &str| false),
        Err("No supported package manager (apt-get, dnf, pacman, zypper). Install grim or scrot manually.".to_string())
    );
}

#[test]
fn install_outcomes() {
    assert_eq!(
        finish_distro_install(Err("No such file".to_string()), |_c: &str| true),
        Err("Could not run pkexec: No such file".to_string())
    );
    assert_eq!(
        finish_distro_install(Ok(false), |_c: &str| true),
        Err("Package install exited with an error (cancelled pkexec or no rights?). Try: sudo apt install grim scrot".to_string())
    );
    assert_eq!(
        finish_distro_install(Ok(true), |c: &str| c == "grim"),
        Ok("Packages installed; at least one capture tool is now on PATH.".to_string())
    );
    assert_eq!(
        finish_distro_install(Ok(true), |_c: &str| false),
        Err("Install finished but no capture tool found in PATH. Log out and back in, or install grim/scrot manually.".to_string())
    );
    let st = install_finished(Ok(true), |c: &str| c == "scrot");
    assert_eq!(st.state, DependencyState::Installed);
    assert_eq!(st.state.status_text(), "installed");
}

fn report(c: DependencyCheck) -> (String, String) {
    match c {
        DependencyCheck::Report(st) => (st.state.status_text().to_string(), st.message),
        DependencyCheck::Install(script) => ("install".to_string(), script),
    }
}

#[test]
fn dependency_flow_tries_install_once() {
    let mut inst = CaptureToolInstaller::new();
    assert_eq!(
        report(inst.ensure_linux_capture_dependencies(false, false, |_c: &str| false)),
        ("skipped".to_string(), "Not Linux".to_string())
    );
    assert_eq!(
        report(inst.ensure_linux_capture_dependencies(true, false, |c: &str| c == "maim")),
        ("ok".to_string(), "Screen capture tools already available".to_string())
    );
    assert!(!inst.attempted);
    let has = |c: &str| c == "pkexec" || c == "apt-get";
    assert_eq!(
        report(inst.ensure_linux_capture_dependencies(true, false, has)),
        (
            "install".to_string(),
            "export DEBIAN_FRONTEND=noninteractive; apt-get update -qq && apt-get install -y scrot maim imagemagick grim".to_string()
        )
    );
    assert!(inst.attempted);
    assert_eq!(
        report(inst.ensure_linux_capture_dependencies(true, false, has)),
        (
            "already_attempted".to_string(),
            "Automatic install was already tried this session. Install manually: sudo apt install grim gnome-screenshot scrot".to_string()
        )
    );
}

#[test]
fn dependency_flow_without_pkexec_or_manager() {
    let mut inst = CaptureToolInstaller::new();
    assert_eq!(
        report(inst.ensure_linux_capture_dependencies(true, true, |c: &str| c == "apt-get")),
        (
            "install_failed".to_string(),
            "pkexec not found. Install manually: sudo apt install grim gnome-screenshot scrot".to_string()
        )
    );
    let mut inst = CaptureToolInstaller::new();
    assert_eq!(
        report(inst.ensure_linux_capture_dependencies(true, true, |c: &str| c == "pkexec")),
        (
            "install_failed".to_string(),
            "No supported package manager (apt-get, dnf, pacman, zypper). Install grim or scrot manually.".to_string()
        )
    );
}
