use flowsight_agent::capture::{
    capture_command, capture_screen, gnome_shell_screenshot_args, linux_capture_failure_message,
    linux_capture_pipeline, macos_screencapture_status, tmp_capture_acceptable, capture_bytes_acceptable,
    tmp_png_name, CaptureBackend, CaptureMethod, CaptureOutcome, CaptureStep, LinuxCaptureRun,
};
use flowsight_agent::platform::Platform;

#[test]
fn backend_per_platform() {
    assert_eq!(capture_screen(Platform::Linux), Ok(CaptureBackend::LinuxTools));
    assert_eq!(capture_screen(Platform::Windows), Ok(CaptureBackend::WindowsScreens));
    assert_eq!(capture_screen(Platform::MacOs), Ok(CaptureBackend::MacScreencapture));
    assert_eq!(
        capture_screen(Platform::Other),
        Err("Screen capture is not implemented for this operating system.".to_string())
    );
}

#[test]
fn gnome_wayland_pipeline() {
    assert_eq!(
        linux_capture_pipeline(true, true),
        vec![CaptureMethod::GnomeScreenshot, CaptureMethod::GnomeShellDbus, CaptureMethod::Spectacle, CaptureMethod::Xfce4Screenshooter, CaptureMethod::Flameshot]
    );
}

#[test]
fn x11_pipeline() {
    assert_eq!(
        linux_capture_pipeline(false, false),
        vec![CaptureMethod::GrimStdout, CaptureMethod::GrimFile, CaptureMethod::GnomeShellDbus, CaptureMethod::Scrot, CaptureMethod::Maim, CaptureMethod::Import, CaptureMethod::Magick, CaptureMethod::Spectacle, CaptureMethod::Xfce4Screenshooter, CaptureMethod::Flameshot]
    );
    assert_eq!(
        linux_capture_pipeline(true, false),
        vec![CaptureMethod::GnomeScreenshot, CaptureMethod::GnomeShellDbus, CaptureMethod::Scrot, CaptureMethod::Maim, CaptureMethod::Import, CaptureMethod::Magick, CaptureMethod::Spectacle, CaptureMethod::Xfce4Screenshooter, CaptureMethod::Flameshot]
    );
}

#[test]
fn scrot_never_precedes_gnome_screenshot() {
    for gnome in [false, true] {
        for wayland in [false, true] {
            let p = linux_capture_pipeline(gnome, wayland);
            let scrot = p.iter().position(|m| *m == CaptureMethod::Scrot);
            let gs = p.iter().position(|m| *m == CaptureMethod::GnomeScreenshot);
            if wayland {
                assert_eq!(scrot, None);
            }
            if let (Some(s), Some(g)) = (scrot, gs) {
                assert!(g < s);
            }
        }
    }
}

#[test]
fn failure_messages() {
    assert_eq!(
        linux_capture_failure_message(true, true, 0),
        "Could not capture the screen (On GNOME Wayland use `gnome-screenshot` (sudo apt install gnome-screenshot). Grant Screen Recording if prompted.)."
    );
    assert_eq!(
        linux_capture_failure_message(false, true, 2),
        "Could not capture the screen (On wlroots/Hyprland/Sway install `grim`. On GNOME use `gnome-screenshot`.). 2 method(s) returned black frames (common: scrot on Wayland)."
    );
    assert_eq!(
        linux_capture_failure_message(true, false, 0),
        "Could not capture the screen (On X11 install `scrot`, `maim`, or `imagemagick`.)."
    );
}

#[test]
fn run_stops_at_first_capture() {
    let (mut run, step) = LinuxCaptureRun::start(true, true);
    assert!(matches!(step, CaptureStep::Run(CaptureMethod::GnomeScreenshot)));
    let step = run.step(CaptureOutcome::NoImage);
    assert!(matches!(step, CaptureStep::Run(CaptureMethod::GnomeShellDbus)));
    let step = run.step(CaptureOutcome::Captured);
    assert!(matches!(step, CaptureStep::Done));
}

#[test]
fn run_counts_black_frames_and_fails() {
    let (mut run, mut step) = LinuxCaptureRun::start(true, true);
    let mut seen = Vec::new();
    let mut black = true;
    loop {
        match step {
            CaptureStep::Run(m) => {
                seen.push(m);
                let outcome = if black { CaptureOutcome::BlackFrame } else { CaptureOutcome::Unusable };
                black = !black;
                step = run.step(outcome);
            }
            CaptureStep::Fail(e) => {
                assert_eq!(
                    e,
                    "Could not capture the screen (On GNOME Wayland use `gnome-screenshot` (sudo apt install gnome-screenshot). Grant Screen Recording if prompted.). 3 method(s) returned black frames (common: scrot on Wayland)."
                );
                break;
            }
            CaptureStep::Done => panic!("nothing was captured"),
        }
    }
    assert_eq!(seen, linux_capture_pipeline(true, true));
}

#[test]
fn tool_commands() {
    let c = capture_command(CaptureMethod::Magick).unwrap();
    assert_eq!(c.program, "magick");
    assert_eq!(c.args, vec!["import", "-window", "root"]);
    let c = capture_command(CaptureMethod::Maim).unwrap();
    assert_eq!(c.program, "maim");
    assert!(c.args.is_empty());
    assert!(capture_command(CaptureMethod::GrimStdout).is_none());
    assert_eq!(CaptureMethod::Xfce4Screenshooter.label(), "xfce4-screenshooter");
}

#[test]
fn temporary_names_and_size_checks() {
    assert_eq!(tmp_png_name("flowsight_grim", 1234), "flowsight_grim_1234.png");
    assert!(!tmp_capture_acceptable(500));
    assert!(tmp_capture_acceptable(501));
    assert!(!capture_bytes_acceptable(499));
    assert!(capture_bytes_acceptable(500));
}

#[test]
fn gnome_shell_arguments() {
    let args = gnome_shell_screenshot_args("/tmp/t.png");
    assert_eq!(args.len(), 11);
    assert_eq!(args[0], "call");
    assert_eq!(args[7], "org.gnome.Shell.Screenshot.Screenshot");
    assert_eq!(args[10], "/tmp/t.png");
}

#[test]
fn macos_status() {
    assert_eq!(macos_screencapture_status(Ok(true)), Ok(()));
    assert_eq!(
        macos_screencapture_status(Ok(false)),
        Err("screencapture exited with a non-zero status".to_string())
    );
    assert_eq!(
        macos_screencapture_status(Err("denied".to_string())),
        Err("screencapture failed (denied). Grant Screen Recording for FlowSight in System Settings → Privacy.".to_string())
    );
}
