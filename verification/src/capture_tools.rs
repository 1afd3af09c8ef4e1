//! The Linux screenshot tools: which are looked for, how a missing set is installed
//! through the distribution's package manager (once per session), and what the agent
//! reports about it. Whether a command is on `PATH` is asked of the caller through a
//! probe, called in the order given here and no further than needed.

use vstd::prelude::*;
use crate::text::{ascii_lower_seq, chars_of, push_text, to_ascii_lower};

verus! {

/// The screenshot tools that count as available capture tools, in the order checked.
pub open spec fn capture_candidates() -> Seq<&'static str> {
    seq![
        "grim",
        "gnome-screenshot",
        "spectacle",
        "scrot",
        "maim",
        "import",
        "magick",
        "xfce4-screenshooter",
        "flameshot",
    ]
}

/// The package managers tried, in order.
pub open spec fn package_managers() -> Seq<&'static str> {
    seq!["apt-get", "dnf", "pacman", "zypper"]
}

/// The probe answered "not found" for each of `names`.
pub open spec fn none_found<F: Fn(&str) -> bool>(probe: F, names: Seq<&'static str>) -> bool {
    forall|i: int| 0 <= i < names.len() ==> #[trigger] probe.ensures((names[i],), false)
}

/// The probe answered "found" for `names[k]` and "not found" for every name before it.
pub open spec fn first_found<F: Fn(&str) -> bool>(probe: F, names: Seq<&'static str>, k: int) -> bool {
    &&& 0 <= k < names.len()
    &&& probe.ensures((names[k],), true)
    &&& forall|i: int| 0 <= i < k ==> #[trigger] probe.ensures((names[i],), false)
}

/// The screenshot tools that count as capture tools, in the order checked.
pub fn linux_capture_candidates() -> (r: Vec<&'static str>)
    ensures
        r@ == capture_candidates(),
{
    let r = vec![
        "grim",
        "gnome-screenshot",
        "spectacle",
        "scrot",
        "maim",
        "import",
        "magick",
        "xfce4-screenshooter",
        "flameshot",
    ];
    assert(r@ =~= capture_candidates());
    r
}

fn first_found_index<F: Fn(&str) -> bool>(names: &Vec<&'static str>, probe: &F) -> (r: Option<usize>)
    requires
        forall|s: &str| #[trigger] probe.requires((s,)),
    ensures
        match r {
            Some(k) => first_found(*probe, names@, k as int),
            None => none_found(*probe, names@),
        },
{
    let mut i: usize = 0;
    while i < names.len()
        invariant
            i <= names.len(),
            forall|s: &str| #[trigger] probe.requires((s,)),
            forall|j: int| 0 <= j < i ==> #[trigger] probe.ensures((names@[j],), false),
        decreases names.len() - i,
    {
        if probe(names[i]) {
            return Some(i);
        }
        i = i + 1;
    }
    None
}

/// Whether any known screenshot tool is on `PATH`, asking `tool_in_path` about the
/// candidates in order and stopping at the first one found.
pub fn linux_any_capture_tool_in_path<F: Fn(&str) -> bool>(tool_in_path: F) -> (r: bool)
    requires
        forall|s: &str| #[trigger] tool_in_path.requires((s,)),
    ensures
        r ==> exists|k: int| first_found(tool_in_path, capture_candidates(), k),
        !r ==> none_found(tool_in_path, capture_candidates()),
{
    let names = linux_capture_candidates();
    match first_found_index(&names, &tool_in_path) {
        Some(k) => {
            assert(first_found(tool_in_path, capture_candidates(), k as int));
            true
        },
        None => false,
    }
}

/// Whether `s` contains `p` as a contiguous run.
pub open spec fn contains_run(s: Seq<char>, p: Seq<char>) -> bool {
    exists|i: int| 0 <= i <= s.len() - p.len() && #[trigger] s.subrange(i, i + p.len()) == p
}

/// Whether the desktop named by `XDG_CURRENT_DESKTOP` is GNOME: the name contains
/// `gnome` in any ASCII case (an unset variable counts as empty). Unicode lower-casing
/// gives the same answer: no other character lower-cases to one of these letters.
pub fn linux_is_gnome_session(current_desktop: &str) -> (r: bool)
    ensures
        r == contains_run(ascii_lower_seq(current_desktop@), seq!['g', 'n', 'o', 'm', 'e']),
{
    let cs = chars_of(current_desktop);
    let ghost l = ascii_lower_seq(current_desktop@);
    let ghost p = seq!['g', 'n', 'o', 'm', 'e'];
    let n = cs.len();
    if n < 5 {
        assert forall|i: int| 0 <= i <= l.len() - p.len() implies #[trigger] l.subrange(i, i + p.len())
            != p by {}
        return false;
    }
    let mut i: usize = 0;
    while i < n - 4
        invariant
            n == cs.len(),
            cs@ == current_desktop@,
            l == ascii_lower_seq(current_desktop@),
            p == seq!['g', 'n', 'o', 'm', 'e'],
            n >= 5,
            i <= n - 4,
            forall|j: int| 0 <= j < i ==> #[trigger] l.subrange(j, j + p.len()) != p,
        decreases n - i,
    {
        if to_ascii_lower(cs[i]) == 'g' && to_ascii_lower(cs[i + 1]) == 'n' && to_ascii_lower(
            cs[i + 2],
        ) == 'o' && to_ascii_lower(cs[i + 3]) == 'm' && to_ascii_lower(cs[i + 4]) == 'e' {
            assert(l.subrange(i as int, i + p.len()) =~= p);
            return true;
        }
        assert(l.subrange(i as int, i + p.len())[0] == l[i as int]);
        assert(l.subrange(i as int, i + p.len())[1] == l[i + 1]);
        assert(l.subrange(i as int, i + p.len())[2] == l[i + 2]);
        assert(l.subrange(i as int, i + p.len())[3] == l[i + 3]);
        assert(l.subrange(i as int, i + p.len())[4] == l[i + 4]);
        i = i + 1;
    }
    false
}

/// The packages installed through package manager `k` (of `package_managers()`).
pub open spec fn install_packages(k: int, wayland: bool) -> Seq<char> {
    if wayland {
        "grim gnome-screenshot scrot"@
    } else if k == 1 || k == 3 {
        "scrot maim ImageMagick grim"@
    } else {
        "scrot maim imagemagick grim"@
    }
}

/// The shell script that installs the capture tools through package manager `k`.
pub open spec fn install_script(k: int, wayland: bool) -> Seq<char> {
    if k == 0 {
        "export DEBIAN_FRONTEND=noninteractive; apt-get update -qq && apt-get install -y "@
            + install_packages(k, wayland)
    } else if k == 1 {
        "dnf install -y "@ + install_packages(k, wayland)
    } else if k == 2 {
        "pacman -S --needed --noconfirm "@ + install_packages(k, wayland)
    } else {
        "zypper --non-interactive install -y "@ + install_packages(k, wayland)
    }
}

/// The error when no supported package manager is found.
pub open spec fn no_package_manager_text() -> Seq<char> {
    "No supported package manager (apt-get, dnf, pacman, zypper). Install grim or scrot manually."@
}

/// On Wayland every package manager installs the same set, `grim gnome-screenshot
/// scrot`: the script is the manager's install command followed by exactly that list.
/// Off Wayland the set holds `scrot` and `maim` (and never `gnome-screenshot`).
pub proof fn law_wayland_installs_same_set(k: int, j: int)
    requires
        0 <= k < package_managers().len(),
        0 <= j < package_managers().len(),
    ensures
        install_packages(k, true) == "grim gnome-screenshot scrot"@,
        install_packages(k, true) == install_packages(j, true),
        install_script(k, true) == install_script(k, false).subrange(
            0,
            install_script(k, false).len() - install_packages(k, false).len(),
        ) + "grim gnome-screenshot scrot"@,
        install_packages(k, false).subrange(0, 10) == "scrot maim"@,
{
    reveal_strlit("grim gnome-screenshot scrot");
    reveal_strlit("scrot maim ImageMagick grim");
    reveal_strlit("scrot maim imagemagick grim");
    reveal_strlit("scrot maim");
    let s = install_script(k, false);
    let pk = install_packages(k, false);
    let prefix = if k == 0 {
        "export DEBIAN_FRONTEND=noninteractive; apt-get update -qq && apt-get install -y "@
    } else if k == 1 {
        "dnf install -y "@
    } else if k == 2 {
        "pacman -S --needed --noconfirm "@
    } else {
        "zypper --non-interactive install -y "@
    };
    assert(s == prefix + pk);
    assert(s.subrange(0, s.len() - pk.len()) =~= prefix);
    assert(install_script(k, true) == prefix + install_packages(k, true));
    assert(pk.subrange(0, 10) =~= "scrot maim"@);
}

fn push_install_packages(s: &mut String, k: usize, wayland: bool)
    ensures
        final(s)@ == old(s)@ + install_packages(k as int, wayland),
{
    if wayland {
        push_text(s, "grim gnome-screenshot scrot");
    } else if k == 1 || k == 3 {
        push_text(s, "scrot maim ImageMagick grim");
    } else {
        push_text(s, "scrot maim imagemagick grim");
    }
}

/// The script to run as root (`pkexec sh -c <script>`) to install the capture tools:
/// through the first of apt-get, dnf, pacman and zypper that `has_command` finds, with
/// Wayland's package set when `WAYLAND_DISPLAY` is set; or the error when none is found.
pub fn distro_install_script<F: Fn(&str) -> bool>(wayland: bool, has_command: &F) -> (r: Result<String, String>)
    requires
        forall|s: &str| #[trigger] has_command.requires((s,)),
    ensures
        match r {
            Ok(script) => exists|k: int|
                first_found(*has_command, package_managers(), k) && #[trigger] install_script(k, wayland)
                    == script@,
            Err(e) => none_found(*has_command, package_managers()) && e@ == no_package_manager_text(),
        },
{
    let managers = vec!["apt-get", "dnf", "pacman", "zypper"];
    assert(managers@ =~= package_managers());
    match first_found_index(&managers, has_command) {
        None => Err(
            "No supported package manager (apt-get, dnf, pacman, zypper). Install grim or scrot manually.".to_string(),
        ),
        Some(k) => {
            let mut script = String::new();
            if k == 0 {
                push_text(
                    &mut script,
                    "export DEBIAN_FRONTEND=noninteractive; apt-get update -qq && apt-get install -y ",
                );
            } else if k == 1 {
                push_text(&mut script, "dnf install -y ");
            } else if k == 2 {
                push_text(&mut script, "pacman -S --needed --noconfirm ");
            } else {
                push_text(&mut script, "zypper --non-interactive install -y ");
            }
            push_install_packages(&mut script, k, wayland);
            assert(install_script(k as int, wayland) == script@);
            Ok(script)
        },
    }
}

/// The outcome text once the package install has run: `status` is whether `pkexec`
/// exited successfully, or why it could not be run; afterwards a capture tool must be
/// on `PATH`.
pub fn finish_distro_install<F: Fn(&str) -> bool>(status: Result<bool, String>, tool_in_path: F) -> (r: Result<String, String>)
    requires
        forall|s: &str| #[trigger] tool_in_path.requires((s,)),
    ensures
        match status {
            Err(e) => r matches Err(m) && m@ == "Could not run pkexec: "@ + e@,
            Ok(false) => r matches Err(m) && m@
                == "Package install exited with an error (cancelled pkexec or no rights?). Try: sudo apt install grim scrot"@,
            Ok(true) => match r {
                Ok(m) => m@ == "Packages installed; at least one capture tool is now on PATH."@ && exists|k: int|
                    first_found(tool_in_path, capture_candidates(), k),
                Err(m) => m@
                    == "Install finished but no capture tool found in PATH. Log out and back in, or install grim/scrot manually."@
                    && none_found(tool_in_path, capture_candidates()),
            },
        },
{
    match status {
        Err(e) => {
            let mut m = String::new();
            push_text(&mut m, "Could not run pkexec: ");
            push_text(&mut m, e.as_str());
            Err(m)
        },
        Ok(false) => Err(
            "Package install exited with an error (cancelled pkexec or no rights?). Try: sudo apt install grim scrot".to_string(),
        ),
        Ok(true) => {
            if linux_any_capture_tool_in_path(tool_in_path) {
                Ok("Packages installed; at least one capture tool is now on PATH.".to_string())
            } else {
                Err(
                    "Install finished but no capture tool found in PATH. Log out and back in, or install grim/scrot manually.".to_string(),
                )
            }
        },
    }
}

/// The status reported about the capture tools.
#[derive(Clone, Copy, Debug, PartialEq, Eq, Structural)]
pub enum DependencyState {
    /// A capture tool is already on `PATH`.
    ToolsPresent,
    /// The automatic install was already tried in this session.
    AlreadyAttempted,
    /// The automatic install could not be done or failed.
    InstallFailed,
    /// The automatic install put a capture tool on `PATH`.
    Installed,
    /// Not a Linux system: nothing to do.
    Skipped,
}

/// The text of a status, as reported to the user interface.
pub open spec fn state_text(s: DependencyState) -> Seq<char> {
    match s {
        DependencyState::ToolsPresent => "ok"@,
        DependencyState::AlreadyAttempted => "already_attempted"@,
        DependencyState::InstallFailed => "install_failed"@,
        DependencyState::Installed => "installed"@,
        DependencyState::Skipped => "skipped"@,
    }
}

impl DependencyState {
    /// The text of this status (`ok`, `already_attempted`, `install_failed`,
    /// `installed` or `skipped`).
    pub fn status_text(&self) -> (r: &'static str)
        ensures
            r@ == state_text(*self),
    {
        match self {
            DependencyState::ToolsPresent => "ok",
            DependencyState::AlreadyAttempted => "already_attempted",
            DependencyState::InstallFailed => "install_failed",
            DependencyState::Installed => "installed",
            DependencyState::Skipped => "skipped",
        }
    }
}

/// A status and its message.
pub struct DependencyStatus {
    pub state: DependencyState,
    pub message: String,
}

/// What the caller does about the capture tools.
pub enum DependencyCheck {
    /// Report this status.
    Report(DependencyStatus),
    /// Run `pkexec sh -c <script>`, then report `install_finished`.
    Install(String),
}

/// The report is `state` with the message `text`.
pub open spec fn reports(c: DependencyCheck, state: DependencyState, text: Seq<char>) -> bool {
    c matches DependencyCheck::Report(st) && st.state == state && st.message@ == text
}

/// The manual install hint that ends the failure messages.
pub open spec fn manual_hint() -> Seq<char> {
    "Install manually: sudo apt install grim gnome-screenshot scrot"@
}

/// Whether the automatic install of the capture tools was already tried in this
/// session (it is tried at most once).
pub struct CaptureToolInstaller {
    pub attempted: bool,
}

impl CaptureToolInstaller {
    /// No install tried yet.
    pub fn new() -> (r: Self)
        ensures
            !r.attempted,
    {
        CaptureToolInstaller { attempted: false }
    }

    /// Called when monitoring starts: makes sure a screenshot tool is installed. On
    /// Linux, a tool already on `PATH` is reported; otherwise the install is tried once
    /// per session: it needs `pkexec` and a known package manager, and the caller runs
    /// the script it is given. Elsewhere there is nothing to do.
    pub fn ensure_linux_capture_dependencies<F: Fn(&str) -> bool>(
        &mut self,
        on_linux: bool,
        wayland: bool,
        has_command: F,
    ) -> (r: DependencyCheck)
        requires
            forall|s: &str| #[trigger] has_command.requires((s,)),
        ensures
            !on_linux ==> reports(r, DependencyState::Skipped, "Not Linux"@) && final(self).attempted
                == old(self).attempted,
            on_linux && reports(r, DependencyState::ToolsPresent, "Screen capture tools already available"@)
                ==> (exists|k: int| first_found(has_command, capture_candidates(), k))
                && final(self).attempted == old(self).attempted,
            on_linux && !reports(r, DependencyState::ToolsPresent, "Screen capture tools already available"@)
                ==> {
                &&& none_found(has_command, capture_candidates())
                &&& final(self).attempted
                &&& old(self).attempted ==> reports(
                    r,
                    DependencyState::AlreadyAttempted,
                    "Automatic install was already tried this session. "@ + manual_hint(),
                )
                &&& !old(self).attempted ==> match r {
                    DependencyCheck::Install(script) => has_command.ensures(("pkexec",), true)
                        && exists|k: int|
                        first_found(has_command, package_managers(), k) && #[trigger] install_script(
                            k,
                            wayland,
                        ) == script@,
                    DependencyCheck::Report(st) => st.state == DependencyState::InstallFailed && (
                    (st.message@ == "pkexec not found. "@ + manual_hint() && has_command.ensures(
                        ("pkexec",),
                        false,
                    )) || (st.message@ == no_package_manager_text() && none_found(
                        has_command,
                        package_managers(),
                    ))),
                }
            },
    {
        if !on_linux {
            return DependencyCheck::Report(
                DependencyStatus { state: DependencyState::Skipped, message: "Not Linux".to_string() },
            );
        }
        let names = linux_capture_candidates();
        if first_found_index(&names, &has_command).is_some() {
            return DependencyCheck::Report(
                DependencyStatus {
                    state: DependencyState::ToolsPresent,
                    message: "Screen capture tools already available".to_string(),
                },
            );
        }
        let already = self.attempted;
        self.attempted = true;
        if already {
            let mut m = String::new();
            push_text(&mut m, "Automatic install was already tried this session. ");
            push_text(&mut m, "Install manually: sudo apt install grim gnome-screenshot scrot");
            return DependencyCheck::Report(
                DependencyStatus { state: DependencyState::AlreadyAttempted, message: m },
            );
        }
        if !has_command("pkexec") {
            let mut m = String::new();
            push_text(&mut m, "pkexec not found. ");
            push_text(&mut m, "Install manually: sudo apt install grim gnome-screenshot scrot");
            return DependencyCheck::Report(
                DependencyStatus { state: DependencyState::InstallFailed, message: m },
            );
        }
        match distro_install_script(wayland, &has_command) {
            Ok(script) => DependencyCheck::Install(script),
            Err(e) => DependencyCheck::Report(
                DependencyStatus { state: DependencyState::InstallFailed, message: e },
            ),
        }
    }
}

/// The status once the install script has run (see `finish_distro_install`):
/// `installed` with its message, or `install_failed` with the error.
pub fn install_finished<F: Fn(&str) -> bool>(status: Result<bool, String>, tool_in_path: F) -> (r: DependencyStatus)
    requires
        forall|s: &str| #[trigger] tool_in_path.requires((s,)),
    ensures
        match status {
            Err(e) => r.state == DependencyState::InstallFailed && r.message@ == "Could not run pkexec: "@ + e@,
            Ok(false) => r.state == DependencyState::InstallFailed && r.message@
                == "Package install exited with an error (cancelled pkexec or no rights?). Try: sudo apt install grim scrot"@,
            Ok(true) => if r.state == DependencyState::Installed {
                r.message@ == "Packages installed; at least one capture tool is now on PATH."@ && exists|k: int|
                    first_found(tool_in_path, capture_candidates(), k)
            } else {
                r.state == DependencyState::InstallFailed && r.message@
                    == "Install finished but no capture tool found in PATH. Log out and back in, or install grim/scrot manually."@
                    && none_found(tool_in_path, capture_candidates())
            },
        },
{
    match finish_distro_install(status, tool_in_path) {
        Ok(detail) => DependencyStatus { state: DependencyState::Installed, message: detail },
        Err(e) => DependencyStatus { state: DependencyState::InstallFailed, message: e },
    }
}

} // verus!
