//! Screen capture planning: which backend captures on each platform, the ordered list
//! of Linux capture tools for a session, the run through that list, and the message
//! given when every tool failed.

use vstd::prelude::*;
use crate::platform::Platform;
use crate::image_codec::{
    capture_view, linux_finish_png, mostly_black_png, png_is_mostly_black, processed_capture,
    ProcessedCapture, MIN_CAPTURE_BYTES,
};
use crate::text::{decimal, is_err_with, push_decimal, push_text};

verus! {

/// How the screen is captured on a platform.
#[derive(Clone, Copy, Debug, PartialEq, Eq, Structural)]
pub enum CaptureBackend {
    /// The `screenshots` crate's first display.
    WindowsScreens,
    /// macOS `screencapture -x -t png`.
    MacScreencapture,
    /// The Linux tool pipeline (`linux_capture_pipeline`).
    LinuxTools,
}

/// The backend that captures the screen on `platform`, or the error for a platform
/// without one.
pub fn capture_screen(platform: Platform) -> (r: Result<CaptureBackend, String>)
    ensures
        match platform {
            Platform::Windows => r == Ok::<CaptureBackend, String>(CaptureBackend::WindowsScreens),
            Platform::MacOs => r == Ok::<CaptureBackend, String>(CaptureBackend::MacScreencapture),
            Platform::Linux => r == Ok::<CaptureBackend, String>(CaptureBackend::LinuxTools),
            Platform::Other => r matches Err(e) && e@
                == "Screen capture is not implemented for this operating system."@,
        },
{
    match platform {
        Platform::Windows => Ok(CaptureBackend::WindowsScreens),
        Platform::MacOs => Ok(CaptureBackend::MacScreencapture),
        Platform::Linux => Ok(CaptureBackend::LinuxTools),
        Platform::Other => Err("Screen capture is not implemented for this operating system.".to_string()),
    }
}

/// One way of capturing the screen on Linux.
#[derive(Clone, Copy, Debug, PartialEq, Eq, Structural)]
pub enum CaptureMethod {
    /// `gnome-screenshot -f <tmp>`.
    GnomeScreenshot,
    /// GNOME Shell's `Screenshot` method over D-Bus, without flash.
    GnomeShellDbus,
    /// `grim -` (PNG on standard output).
    GrimStdout,
    /// `grim <tmp>`.
    GrimFile,
    /// `scrot <tmp>`.
    Scrot,
    /// `maim <tmp>`.
    Maim,
    /// ImageMagick `import -window root <tmp>`.
    Import,
    /// ImageMagick 7 `magick import -window root <tmp>`.
    Magick,
    /// `spectacle -b -o <tmp>`.
    Spectacle,
    /// `xfce4-screenshooter -f <tmp>`.
    Xfce4Screenshooter,
    /// `flameshot screen -p <tmp>`.
    Flameshot,
}

/// The capture methods tried, in order, for a session. On GNOME `gnome-screenshot`
/// comes first (elsewhere `grim`); the X11-only tools are left out on Wayland, where
/// `scrot` gives a black frame.
pub open spec fn capture_pipeline(gnome: bool, wayland: bool) -> Seq<CaptureMethod> {
    (if gnome {
        seq![CaptureMethod::GnomeScreenshot, CaptureMethod::GnomeShellDbus]
    } else {
        seq![CaptureMethod::GrimStdout, CaptureMethod::GrimFile, CaptureMethod::GnomeShellDbus]
    }) + (if wayland {
        Seq::<CaptureMethod>::empty()
    } else {
        seq![CaptureMethod::Scrot, CaptureMethod::Maim, CaptureMethod::Import, CaptureMethod::Magick]
    }) + seq![CaptureMethod::Spectacle, CaptureMethod::Xfce4Screenshooter, CaptureMethod::Flameshot]
}

/// The order that the pipeline keeps: `scrot` never runs on Wayland (it gives a black
/// frame there), and wherever it runs, `gnome-screenshot` (if it runs) comes first.
pub proof fn law_scrot_after_gnome_screenshot(gnome: bool, wayland: bool, i: int, j: int)
    requires
        0 <= i < capture_pipeline(gnome, wayland).len(),
        0 <= j < capture_pipeline(gnome, wayland).len(),
        capture_pipeline(gnome, wayland)[j] == CaptureMethod::Scrot,
    ensures
        !wayland,
        capture_pipeline(gnome, wayland)[i] == CaptureMethod::GnomeScreenshot ==> i < j,
{
    let p = capture_pipeline(gnome, wayland);
    let head = if gnome {
        seq![CaptureMethod::GnomeScreenshot, CaptureMethod::GnomeShellDbus]
    } else {
        seq![CaptureMethod::GrimStdout, CaptureMethod::GrimFile, CaptureMethod::GnomeShellDbus]
    };
    let mid = if wayland {
        Seq::<CaptureMethod>::empty()
    } else {
        seq![CaptureMethod::Scrot, CaptureMethod::Maim, CaptureMethod::Import, CaptureMethod::Magick]
    };
    let tail = seq![CaptureMethod::Spectacle, CaptureMethod::Xfce4Screenshooter, CaptureMethod::Flameshot];
    assert(p == head + mid + tail);
    assert(j >= head.len() && j < head.len() + mid.len()) by {
        if j < head.len() {
            assert(p[j] == head[j]);
        } else if j >= head.len() + mid.len() {
            assert(p[j] == tail[j - head.len() - mid.len()]);
        }
    }
    if p[i] == CaptureMethod::GnomeScreenshot {
        if i >= head.len() && i < head.len() + mid.len() {
            assert(p[i] == mid[i - head.len()]);
        } else if i >= head.len() + mid.len() {
            assert(p[i] == tail[i - head.len() - mid.len()]);
        }
    }
}

/// What the pipeline looks like for every session: GNOME sessions start with
/// `gnome-screenshot` then the Shell's D-Bus call; every other session, Wayland or
/// X11, starts with `grim` to standard output, then `grim` to a file, then the D-Bus
/// call; the X11 tools (`scrot`, `maim`, `import`, `magick`) run exactly when the
/// session is not Wayland; and every pipeline ends with `spectacle`,
/// `xfce4-screenshooter`, `flameshot`.
pub proof fn law_pipeline_shape(gnome: bool, wayland: bool)
    ensures
        ({
            let p = capture_pipeline(gnome, wayland);
            &&& gnome ==> p[0] == CaptureMethod::GnomeScreenshot && p[1] == CaptureMethod::GnomeShellDbus
            &&& !gnome ==> p[0] == CaptureMethod::GrimStdout && p[1] == CaptureMethod::GrimFile && p[2]
                == CaptureMethod::GnomeShellDbus
            &&& p.contains(CaptureMethod::GrimStdout) <==> !gnome
            &&& p.contains(CaptureMethod::GnomeScreenshot) <==> gnome
            &&& p.contains(CaptureMethod::Scrot) <==> !wayland
            &&& p.contains(CaptureMethod::Maim) <==> !wayland
            &&& p.contains(CaptureMethod::Import) <==> !wayland
            &&& p.contains(CaptureMethod::Magick) <==> !wayland
            &&& p.len() >= 3
            &&& p[p.len() - 3] == CaptureMethod::Spectacle
            &&& p[p.len() - 2] == CaptureMethod::Xfce4Screenshooter
            &&& p[p.len() - 1] == CaptureMethod::Flameshot
        }),
{
    let p = capture_pipeline(gnome, wayland);
    let head = if gnome {
        seq![CaptureMethod::GnomeScreenshot, CaptureMethod::GnomeShellDbus]
    } else {
        seq![CaptureMethod::GrimStdout, CaptureMethod::GrimFile, CaptureMethod::GnomeShellDbus]
    };
    let mid = if wayland {
        Seq::<CaptureMethod>::empty()
    } else {
        seq![CaptureMethod::Scrot, CaptureMethod::Maim, CaptureMethod::Import, CaptureMethod::Magick]
    };
    let tail = seq![CaptureMethod::Spectacle, CaptureMethod::Xfce4Screenshooter, CaptureMethod::Flameshot];
    assert(p =~= head + mid + tail);
    let h = head.len() as int;
    let m = mid.len() as int;
    assert forall|x: CaptureMethod| p.contains(x) <==> (head.contains(x) || mid.contains(x) || tail.contains(x)) by {
        if p.contains(x) {
            let i = choose|i: int| 0 <= i < p.len() && p[i] == x;
            if i < h {
                assert(head[i] == x);
            } else if i < h + m {
                assert(mid[i - h] == x);
            } else {
                assert(tail[i - h - m] == x);
            }
        }
        if head.contains(x) {
            let i = choose|i: int| 0 <= i < head.len() && head[i] == x;
            assert(p[i] == x);
        }
        if mid.contains(x) {
            let i = choose|i: int| 0 <= i < mid.len() && mid[i] == x;
            assert(p[h + i] == x);
        }
        if tail.contains(x) {
            let i = choose|i: int| 0 <= i < tail.len() && tail[i] == x;
            assert(p[h + m + i] == x);
        }
    }
    if gnome {
        assert(head[0] == CaptureMethod::GnomeScreenshot);
        assert(!head.contains(CaptureMethod::GrimStdout));
    } else {
        assert(head[0] == CaptureMethod::GrimStdout);
        assert(!head.contains(CaptureMethod::GnomeScreenshot));
    }
    if !wayland {
        assert(mid[0] == CaptureMethod::Scrot);
        assert(mid[1] == CaptureMethod::Maim);
        assert(mid[2] == CaptureMethod::Import);
        assert(mid[3] == CaptureMethod::Magick);
    }
    assert(!tail.contains(CaptureMethod::Scrot));
    assert(!tail.contains(CaptureMethod::Maim));
    assert(!tail.contains(CaptureMethod::Import));
    assert(!tail.contains(CaptureMethod::Magick));
    assert(!tail.contains(CaptureMethod::GrimStdout));
    assert(!tail.contains(CaptureMethod::GnomeScreenshot));
    assert(!head.contains(CaptureMethod::Scrot));
    assert(!head.contains(CaptureMethod::Maim));
    assert(!head.contains(CaptureMethod::Import));
    assert(!head.contains(CaptureMethod::Magick));
    assert(!mid.contains(CaptureMethod::GrimStdout));
    assert(!mid.contains(CaptureMethod::GnomeScreenshot));
    assert(p[p.len() - 3] == tail[0]);
    assert(p[p.len() - 2] == tail[1]);
    assert(p[p.len() - 1] == tail[2]);
}

/// Every command that runs ImageMagick's `import` captures the whole screen: `import`
/// is given exactly `-window root`, and `magick` is given `import` followed by the same
/// arguments.
pub proof fn law_import_grabs_root_window(m: CaptureMethod)
    ensures
        tool_command(m) matches Some((program, args)) ==> {
            &&& program == "import"@ ==> args == seq!["-window"@, "root"@]
            &&& program == "magick"@ ==> args == seq!["import"@] + seq!["-window"@, "root"@]
        },
{
    reveal_strlit("import");
    reveal_strlit("magick");
    reveal_strlit("maim");
    reveal_strlit("spectacle");
    reveal_strlit("xfce4-screenshooter");
    reveal_strlit("flameshot");
    reveal_strlit("-window");
    reveal_strlit("root");
    if let Some((program, args)) = tool_command(m) {
        if m == CaptureMethod::Magick {
            assert(args =~= seq!["import"@] + seq!["-window"@, "root"@]);
            assert(program != "import"@) by {
                assert(program[0] != "import"@[0]);
            }
        } else if m == CaptureMethod::Import {
            assert(program != "magick"@) by {
                assert(program[0] != "magick"@[0]);
            }
        } else {
            assert(program != "import"@ && program != "magick"@) by {
                if m == CaptureMethod::Maim {
                    assert(program.len() != "import"@.len());
                } else if m == CaptureMethod::Spectacle {
                    assert(program.len() != "import"@.len());
                } else if m == CaptureMethod::Xfce4Screenshooter {
                    assert(program.len() != "import"@.len());
                } else {
                    assert(program.len() != "import"@.len());
                }
            }
        }
    }
}

/// The capture methods to try, in order, for a session that is or is not GNOME and
/// is or is not Wayland.
pub fn linux_capture_pipeline(gnome: bool, wayland: bool) -> (r: Vec<CaptureMethod>)
    ensures
        r@ == capture_pipeline(gnome, wayland),
{
    let mut r: Vec<CaptureMethod> = Vec::new();
    if gnome {
        r.push(CaptureMethod::GnomeScreenshot);
        r.push(CaptureMethod::GnomeShellDbus);
    }
    if !gnome {
        r.push(CaptureMethod::GrimStdout);
        r.push(CaptureMethod::GrimFile);
        r.push(CaptureMethod::GnomeShellDbus);
    }
    if !wayland {
        r.push(CaptureMethod::Scrot);
        r.push(CaptureMethod::Maim);
        r.push(CaptureMethod::Import);
        r.push(CaptureMethod::Magick);
    }
    r.push(CaptureMethod::Spectacle);
    r.push(CaptureMethod::Xfce4Screenshooter);
    r.push(CaptureMethod::Flameshot);
    assert(r@ =~= capture_pipeline(gnome, wayland));
    r
}

/// The hint given when no method captured the screen.
pub open spec fn capture_hint(gnome: bool, wayland: bool) -> Seq<char> {
    if gnome && wayland {
        "On GNOME Wayland use `gnome-screenshot` (sudo apt install gnome-screenshot). Grant Screen Recording if prompted."@
    } else if wayland {
        "On wlroots/Hyprland/Sway install `grim`. On GNOME use `gnome-screenshot`."@
    } else {
        "On X11 install `scrot`, `maim`, or `imagemagick`."@
    }
}

/// The error given when no method captured the screen, `black_rejects` of them having
/// returned a black frame.
pub open spec fn capture_failure_text(gnome: bool, wayland: bool, black_rejects: nat) -> Seq<char> {
    "Could not capture the screen ("@ + capture_hint(gnome, wayland) + ")."@ + if black_rejects > 0 {
        " "@ + decimal(black_rejects) + " method(s) returned black frames (common: scrot on Wayland)."@
    } else {
        Seq::<char>::empty()
    }
}

/// The error given when no method captured the screen.
pub fn linux_capture_failure_message(gnome: bool, wayland: bool, black_rejects: u32) -> (r: String)
    ensures
        r@ == capture_failure_text(gnome, wayland, black_rejects as nat),
{
    let mut r = String::new();
    push_text(&mut r, "Could not capture the screen (");
    if gnome && wayland {
        push_text(
            &mut r,
            "On GNOME Wayland use `gnome-screenshot` (sudo apt install gnome-screenshot). Grant Screen Recording if prompted.",
        );
    } else if wayland {
        push_text(&mut r, "On wlroots/Hyprland/Sway install `grim`. On GNOME use `gnome-screenshot`.");
    } else {
        push_text(&mut r, "On X11 install `scrot`, `maim`, or `imagemagick`.");
    }
    push_text(&mut r, ").");
    if black_rejects > 0 {
        push_text(&mut r, " ");
        push_decimal(&mut r, black_rejects as u128);
        push_text(&mut r, " method(s) returned black frames (common: scrot on Wayland).");
    } else {
        assert(r@ =~= r@ + Seq::<char>::empty());
    }
    r
}

/// What came of running one capture method.
#[derive(Clone, Copy, Debug, PartialEq, Eq, Structural)]
pub enum CaptureOutcome {
    /// The method produced no image.
    NoImage,
    /// The image was (almost) all black.
    BlackFrame,
    /// The image could not be used (too small, or it failed to re-encode).
    Unusable,
    /// The image was captured and processed.
    Captured,
}

/// What came of one capture method, given the file it produced, if any, and the
/// processed screenshot when it can be used: no file; an almost black frame (or one
/// that does not decode); a file too small or one that fails to re-encode; or a capture.
pub fn capture_outcome(bytes: Option<Vec<u8>>) -> (r: (CaptureOutcome, Option<ProcessedCapture>))
    ensures
        match bytes {
            None => r.0 == CaptureOutcome::NoImage && r.1 is None,
            Some(b) => if mostly_black_png(b@) {
                r.0 == CaptureOutcome::BlackFrame && r.1 is None
            } else if b@.len() >= MIN_CAPTURE_BYTES && processed_capture(b@) is Ok {
                &&& r.0 == CaptureOutcome::Captured
                &&& r.1 matches Some(c) && capture_view(Ok::<ProcessedCapture, String>(c))
                    == processed_capture(b@)
            } else {
                r.0 == CaptureOutcome::Unusable && r.1 is None
            },
        },
{
    match bytes {
        None => (CaptureOutcome::NoImage, None),
        Some(b) => {
            if png_is_mostly_black(b.as_slice()) {
                (CaptureOutcome::BlackFrame, None)
            } else {
                match linux_finish_png(b.as_slice()) {
                    Some(Ok(c)) => (CaptureOutcome::Captured, Some(c)),
                    _ => (CaptureOutcome::Unusable, None),
                }
            }
        },
    }
}

/// What the caller does next in a Linux capture run.
#[derive(Debug)]
pub enum CaptureStep {
    /// Run this method and report its outcome with `LinuxCaptureRun::step`.
    Run(CaptureMethod),
    /// The screen was captured; return the processed image.
    Done,
    /// Every method failed; return this error.
    Fail(String),
}

/// `step` gives up with the error text `text`.
pub open spec fn fails_with(step: CaptureStep, text: Seq<char>) -> bool {
    step matches CaptureStep::Fail(e) && e@ == text
}

/// A run through the capture pipeline of a session.
pub struct LinuxCaptureRun {
    gnome: bool,
    wayland: bool,
    pipeline: Vec<CaptureMethod>,
    tried: usize,
    black_rejects: u32,
    awaiting: bool,
}

impl LinuxCaptureRun {
    /// The methods of this run, in order.
    pub closed spec fn methods(&self) -> Seq<CaptureMethod> {
        self.pipeline@
    }

    /// How many methods have been started.
    pub closed spec fn tried(&self) -> nat {
        self.tried as nat
    }

    /// How many methods returned a black frame.
    pub closed spec fn black_rejects(&self) -> nat {
        self.black_rejects as nat
    }

    /// Whether a started method's outcome is awaited.
    pub closed spec fn awaiting(&self) -> bool {
        self.awaiting
    }

    /// Whether the session is GNOME.
    pub closed spec fn gnome(&self) -> bool {
        self.gnome
    }

    /// Whether the session is Wayland.
    pub closed spec fn wayland(&self) -> bool {
        self.wayland
    }

    /// The run's invariant: the pipeline is the session's, no more methods were started
    /// than it holds, and no more black frames were seen than methods started.
    pub closed spec fn wf(&self) -> bool {
        &&& self.pipeline@ == capture_pipeline(self.gnome, self.wayland)
        &&& self.tried <= self.pipeline@.len()
        &&& self.black_rejects + (if self.awaiting {
            1int
        } else {
            0int
        }) <= self.tried
    }

    fn advance(&mut self) -> (step: CaptureStep)
        requires
            old(self).wf(),
            !old(self).awaiting(),
        ensures
            final(self).wf(),
            final(self).methods() == old(self).methods(),
            final(self).gnome() == old(self).gnome(),
            final(self).wayland() == old(self).wayland(),
            final(self).black_rejects() == old(self).black_rejects(),
            final(self).awaiting() == (old(self).tried() < old(self).methods().len()),
            old(self).tried() < old(self).methods().len() ==> final(self).tried() == old(self).tried() + 1
                && step == CaptureStep::Run(old(self).methods()[old(self).tried() as int]),
            old(self).tried() >= old(self).methods().len() ==> final(self).tried() == old(self).tried()
                && fails_with(
                step,
                capture_failure_text(old(self).gnome(), old(self).wayland(), old(self).black_rejects()),
            ),
    {
        if self.tried < self.pipeline.len() {
            let m = self.pipeline[self.tried];
            self.tried = self.tried + 1;
            self.awaiting = true;
            CaptureStep::Run(m)
        } else {
            CaptureStep::Fail(linux_capture_failure_message(self.gnome, self.wayland, self.black_rejects))
        }
    }

    /// Starts a run for a session; the first step runs the first method.
    pub fn start(gnome: bool, wayland: bool) -> (r: (Self, CaptureStep))
        ensures
            r.0.wf(),
            r.0.gnome() == gnome,
            r.0.wayland() == wayland,
            r.0.methods() == capture_pipeline(gnome, wayland),
            r.0.tried() == 1,
            r.0.black_rejects() == 0,
            r.0.awaiting(),
            r.1 == CaptureStep::Run(capture_pipeline(gnome, wayland)[0]),
    {
        let pipeline = linux_capture_pipeline(gnome, wayland);
        let mut run = LinuxCaptureRun {
            gnome,
            wayland,
            pipeline,
            tried: 0,
            black_rejects: 0,
            awaiting: false,
        };
        let step = run.advance();
        (run, step)
    }

    /// Takes the outcome of the method last started and gives the next step: done
    /// once an image is captured, else the next method, or the failure message once
    /// every method was tried. A black frame is counted for that message.
    pub fn step(&mut self, outcome: CaptureOutcome) -> (step: CaptureStep)
        requires
            old(self).wf(),
            old(self).awaiting(),
        ensures
            final(self).wf(),
            final(self).methods() == old(self).methods(),
            final(self).gnome() == old(self).gnome(),
            final(self).wayland() == old(self).wayland(),
            outcome == CaptureOutcome::Captured ==> step == CaptureStep::Done && final(self).tried()
                == old(self).tried() && final(self).black_rejects() == old(self).black_rejects()
                && !final(self).awaiting(),
            outcome != CaptureOutcome::Captured ==> {
                let black = old(self).black_rejects() + if outcome == CaptureOutcome::BlackFrame {
                    1nat
                } else {
                    0nat
                };
                &&& final(self).black_rejects() == black
                &&& final(self).awaiting() == (old(self).tried() < old(self).methods().len())
                &&& old(self).tried() < old(self).methods().len() ==> final(self).tried() == old(
                    self,
                ).tried() + 1 && step == CaptureStep::Run(old(self).methods()[old(self).tried() as int])
                &&& old(self).tried() >= old(self).methods().len() ==> final(self).tried() == old(
                    self,
                ).tried() && fails_with(
                    step,
                    capture_failure_text(old(self).gnome(), old(self).wayland(), black),
                )
            },
    {
        self.awaiting = false;
        match outcome {
            CaptureOutcome::Captured => CaptureStep::Done,
            CaptureOutcome::BlackFrame => {
                self.black_rejects = self.black_rejects + 1;
                self.advance()
            },
            _ => self.advance(),
        }
    }
}

/// The name of a method, as logged.
pub open spec fn method_label(m: CaptureMethod) -> Seq<char> {
    match m {
        CaptureMethod::GnomeScreenshot => "gnome-screenshot"@,
        CaptureMethod::GnomeShellDbus => "gnome-shell-dbus"@,
        CaptureMethod::GrimStdout => "grim-stdout"@,
        CaptureMethod::GrimFile => "grim-file"@,
        CaptureMethod::Scrot => "scrot"@,
        CaptureMethod::Maim => "maim"@,
        CaptureMethod::Import => "import"@,
        CaptureMethod::Magick => "magick"@,
        CaptureMethod::Spectacle => "spectacle"@,
        CaptureMethod::Xfce4Screenshooter => "xfce4-screenshooter"@,
        CaptureMethod::Flameshot => "flameshot"@,
    }
}

impl CaptureMethod {
    /// The name of this method, as logged.
    pub fn label(&self) -> (r: &'static str)
        ensures
            r@ == method_label(*self),
    {
        match self {
            CaptureMethod::GnomeScreenshot => "gnome-screenshot",
            CaptureMethod::GnomeShellDbus => "gnome-shell-dbus",
            CaptureMethod::GrimStdout => "grim-stdout",
            CaptureMethod::GrimFile => "grim-file",
            CaptureMethod::Scrot => "scrot",
            CaptureMethod::Maim => "maim",
            CaptureMethod::Import => "import",
            CaptureMethod::Magick => "magick",
            CaptureMethod::Spectacle => "spectacle",
            CaptureMethod::Xfce4Screenshooter => "xfce4-screenshooter",
            CaptureMethod::Flameshot => "flameshot",
        }
    }
}

/// A command that writes a screenshot to the file named last on its command line.
pub struct ToolCommand {
    pub program: &'static str,
    pub args: Vec<&'static str>,
}

/// The program and leading arguments of the methods run as `<program> <args> <tmp>`.
pub open spec fn tool_command(m: CaptureMethod) -> Option<(Seq<char>, Seq<Seq<char>>)> {
    match m {
        CaptureMethod::Maim => Some(("maim"@, Seq::<Seq<char>>::empty())),
        CaptureMethod::Import => Some(("import"@, seq!["-window"@, "root"@])),
        CaptureMethod::Magick => Some(("magick"@, seq!["import"@, "-window"@, "root"@])),
        CaptureMethod::Spectacle => Some(("spectacle"@, seq!["-b"@, "-o"@])),
        CaptureMethod::Xfce4Screenshooter => Some(("xfce4-screenshooter"@, seq!["-f"@])),
        CaptureMethod::Flameshot => Some(("flameshot"@, seq!["screen"@, "-p"@])),
        _ => None,
    }
}

/// The views of a list of texts.
pub open spec fn str_views(v: Seq<&'static str>) -> Seq<Seq<char>> {
    v.map_values(|x: &'static str| x@)
}

/// The command line, less the output file, of a method run as `<program> <args> <tmp>`;
/// `None` for the methods that need their own handling.
pub fn capture_command(m: CaptureMethod) -> (r: Option<ToolCommand>)
    ensures
        match tool_command(m) {
            Some((program, args)) => r matches Some(c) && c.program@ == program && str_views(c.args@)
                == args,
            None => r is None,
        },
{
    let r = match m {
        CaptureMethod::Maim => Some(ToolCommand { program: "maim", args: vec![] }),
        CaptureMethod::Import => Some(ToolCommand { program: "import", args: vec!["-window", "root"] }),
        CaptureMethod::Magick => Some(
            ToolCommand { program: "magick", args: vec!["import", "-window", "root"] },
        ),
        CaptureMethod::Spectacle => Some(ToolCommand { program: "spectacle", args: vec!["-b", "-o"] }),
        CaptureMethod::Xfce4Screenshooter => Some(
            ToolCommand { program: "xfce4-screenshooter", args: vec!["-f"] },
        ),
        CaptureMethod::Flameshot => Some(ToolCommand { program: "flameshot", args: vec!["screen", "-p"] }),
        _ => None,
    };
    assert(r matches Some(c) ==> str_views(c.args@) =~= tool_command(m).unwrap().1);
    r
}

/// The temporary file name for a capture: `<prefix>_<ms>.png`.
pub fn tmp_png_name(prefix: &str, now_ms: u128) -> (r: String)
    ensures
        r@ == prefix@ + "_"@ + decimal(now_ms as nat) + ".png"@,
{
    let mut r = String::new();
    push_text(&mut r, prefix);
    push_text(&mut r, "_");
    push_decimal(&mut r, now_ms);
    push_text(&mut r, ".png");
    r
}

/// Whether a screenshot read back from a temporary file is kept: more than 500 bytes.
pub fn tmp_capture_acceptable(len: usize) -> (r: bool)
    ensures
        r == (len > 500),
{
    len > 500
}

/// Whether a screenshot written to standard output, or read from the file GNOME Shell
/// reports, is kept: at least 500 bytes.
pub fn capture_bytes_acceptable(len: usize) -> (r: bool)
    ensures
        r == (len >= 500),
{
    len >= 500
}

/// The arguments of `gdbus` that ask GNOME Shell for a full-screen capture without
/// flash into `tmp`.
pub fn gnome_shell_screenshot_args(tmp: &str) -> (r: Vec<String>)
    ensures
        str_list(r@) == seq![
            "call"@,
            "--session"@,
            "--dest"@,
            "org.gnome.Shell"@,
            "--object-path"@,
            "/org/gnome/Shell/Screenshot"@,
            "--method"@,
            "org.gnome.Shell.Screenshot.Screenshot"@,
            "false"@,
            "false"@,
            tmp@,
        ],
        r@.len() == 11,
        forall|i: int| 0 <= i < r@.len() ==> (#[trigger] r@[i])@ == str_list(r@)[i],
{
    let mut r: Vec<String> = Vec::new();
    r.push("call".to_string());
    r.push("--session".to_string());
    r.push("--dest".to_string());
    r.push("org.gnome.Shell".to_string());
    r.push("--object-path".to_string());
    r.push("/org/gnome/Shell/Screenshot".to_string());
    r.push("--method".to_string());
    r.push("org.gnome.Shell.Screenshot.Screenshot".to_string());
    r.push("false".to_string());
    r.push("false".to_string());
    r.push(tmp.to_string());
    assert(str_list(r@) =~= seq![
        "call"@,
        "--session"@,
        "--dest"@,
        "org.gnome.Shell"@,
        "--object-path"@,
        "/org/gnome/Shell/Screenshot"@,
        "--method"@,
        "org.gnome.Shell.Screenshot.Screenshot"@,
        "false"@,
        "false"@,
        tmp@,
    ]);
    r
}

/// The views of a list of strings.
pub open spec fn str_list(v: Seq<String>) -> Seq<Seq<char>> {
    v.map_values(|x: String| x@)
}

/// The outcome of macOS `screencapture`: an error when it could not be started (with
/// the system's message and the permission hint) or exited unsuccessfully.
pub fn macos_screencapture_status(status: Result<bool, String>) -> (r: Result<(), String>)
    ensures
        match status {
            Ok(true) => r is Ok,
            Ok(false) => is_err_with(r, "screencapture exited with a non-zero status"@),
            Err(e) => is_err_with(
                r,
                "screencapture failed ("@ + e@
                    + "). Grant Screen Recording for FlowSight in System Settings \u{2192} Privacy."@,
            ),
        },
{
    match status {
        Ok(true) => Ok(()),
        Ok(false) => Err("screencapture exited with a non-zero status".to_string()),
        Err(e) => {
            let mut m = String::new();
            push_text(&mut m, "screencapture failed (");
            push_text(&mut m, e.as_str());
            push_text(&mut m, "). Grant Screen Recording for FlowSight in System Settings \u{2192} Privacy.");
            Err(m)
        },
    }
}

} // verus!
