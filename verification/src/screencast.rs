//! The silent GNOME screencast session (ScreenCast portal + PipeWire): when a
//! monitoring frame may be grabbed, how the session is opened and stopped, and the
//! GStreamer command that grabs one frame. The portal calls, the PipeWire descriptor
//! and the keep-alive thread stay with the caller; this module decides.

use vstd::prelude::*;
use crate::capture::str_list;
use crate::capture_tools::{contains_run, linux_is_gnome_session};
use crate::shell::{shell_escape_single, shell_quoted};
use crate::text::{ascii_lower, ascii_lower_seq, decimal, push_decimal, push_signed_decimal, push_text, signed_decimal, to_ascii_lower};

verus! {

/// At most one frame is grabbed per this many milliseconds (the monitoring interval
/// is about a minute).
pub const MIN_FRAME_INTERVAL_MS: u64 = 55000;

/// A grabbed frame smaller than this many bytes is discarded.
pub const MIN_FRAME_BYTES: usize = 500;

/// The state of the silent screencast session.
#[derive(Clone, Copy, Debug, PartialEq, Eq, Structural)]
pub struct ScreencastSession {
    /// The session has been opened and not stopped since.
    pub ready: bool,
    /// When the last frame was grabbed, in milliseconds since the Unix epoch; 0 when
    /// no frame has been grabbed since the session was (re)started.
    pub last_grab_ms: u64,
    /// The PipeWire node of the held stream, if a stream is held.
    pub stream_node: Option<u32>,
}

/// What `ensure_session` asks the caller to do.
#[derive(Clone, Copy, Debug, PartialEq, Eq, Structural)]
pub enum SessionAction {
    /// The session is already open: nothing to do.
    AlreadyReady,
    /// Grant the portal permissions, open a ScreenCast session, then report the stream
    /// with `session_opened`.
    Open,
}

/// Whether a frame may be grabbed at `now_ms`, given the time of the last grab.
pub open spec fn may_grab_at(last_grab_ms: u64, now_ms: u64) -> bool {
    last_grab_ms == 0 || now_ms >= last_grab_ms + MIN_FRAME_INTERVAL_MS
}

/// The node to grab a monitoring frame from at `now_ms`, or `None` when no frame is due.
pub open spec fn frame_source(s: ScreencastSession, now_ms: u64) -> Option<u32> {
    if s.ready && may_grab_at(s.last_grab_ms, now_ms) {
        s.stream_node
    } else {
        None
    }
}

impl ScreencastSession {
    /// The state before any session was opened.
    pub fn new() -> (s: Self)
        ensures
            s == (ScreencastSession { ready: false, last_grab_ms: 0, stream_node: None }),
    {
        ScreencastSession { ready: false, last_grab_ms: 0, stream_node: None }
    }

    /// Whether the interval since the last grab has elapsed at `now_ms` (always, when
    /// nothing was grabbed yet).
    pub fn may_grab_frame(&self, now_ms: u64) -> (r: bool)
        ensures
            r == may_grab_at(self.last_grab_ms, now_ms),
    {
        let last = self.last_grab_ms;
        if last == 0 {
            return true;
        }
        let elapsed: u64 = if now_ms >= last {
            now_ms - last
        } else {
            0
        };
        elapsed >= MIN_FRAME_INTERVAL_MS
    }

    /// Records that a frame was grabbed at `now_ms`.
    pub fn mark_grabbed(&mut self, now_ms: u64)
        ensures
            *final(self) == (ScreencastSession { last_grab_ms: now_ms, ..*old(self) }),
    {
        self.last_grab_ms = now_ms;
    }

    /// The PipeWire node to grab a monitoring frame from at `now_ms`: `None` when the
    /// session is not open, when the interval since the last grab has not elapsed, or
    /// when no stream is held. After a successful grab the caller reports it with
    /// `mark_grabbed`.
    pub fn capture_monitoring_frame(&self, now_ms: u64) -> (r: Option<u32>)
        ensures
            r == frame_source(*self, now_ms),
    {
        if !self.ready {
            return None;
        }
        if !self.may_grab_frame(now_ms) {
            return None;
        }
        self.stream_node
    }

    /// What to do to have an open session.
    pub fn ensure_session(&self) -> (r: SessionAction)
        ensures
            r == if self.ready {
                SessionAction::AlreadyReady
            } else {
                SessionAction::Open
            },
    {
        if self.ready {
            SessionAction::AlreadyReady
        } else {
            SessionAction::Open
        }
    }

    /// Records the stream of a newly opened session.
    pub fn session_opened(&mut self, node_id: u32)
        ensures
            *final(self) == (ScreencastSession {
                ready: true,
                stream_node: Some(node_id),
                ..*old(self)
            }),
    {
        self.stream_node = Some(node_id);
        self.ready = true;
    }

    /// Closes the session and forgets the last grab. Returns whether a stream was held,
    /// whose keep-alive the caller then stops.
    pub fn stop_session(&mut self) -> (had_stream: bool)
        ensures
            *final(self) == (ScreencastSession { ready: false, last_grab_ms: 0, stream_node: None }),
            had_stream == old(self).stream_node.is_some(),
    {
        let had = self.stream_node.is_some();
        self.ready = false;
        self.last_grab_ms = 0;
        self.stream_node = None;
        had
    }
}

/// The throttle: once a frame is grabbed at a time `t > 0`, no frame is due before
/// `t + MIN_FRAME_INTERVAL_MS`, and one is due from then on while the session stays open.
pub proof fn law_one_frame_per_interval(s: ScreencastSession, t: u64, now: u64)
    requires
        t > 0,
    ensures
        now < t + MIN_FRAME_INTERVAL_MS ==> frame_source(
            ScreencastSession { last_grab_ms: t, ..s },
            now,
        ) is None,
        now >= t + MIN_FRAME_INTERVAL_MS ==> frame_source(
            ScreencastSession { last_grab_ms: t, ..s },
            now,
        ) == if s.ready {
            s.stream_node
        } else {
            None
        },
{
}

/// A stopped session yields no frame until it is opened again, and a reopened session
/// yields its first frame at once.
pub proof fn law_stop_then_reopen(now: u64, later: u64, node_id: u32)
    ensures
        frame_source(ScreencastSession { ready: false, last_grab_ms: 0, stream_node: None }, now)
            is None,
        frame_source(
            ScreencastSession { ready: true, last_grab_ms: 0, stream_node: Some(node_id) },
            later,
        ) == Some(node_id),
{
}

/// Whether `a` equals `b` ignoring ASCII case (`str::eq_ignore_ascii_case`).
pub open spec fn eq_ignore_ascii_case(a: Seq<char>, b: Seq<char>) -> bool {
    a.len() == b.len() && forall|i: int| 0 <= i < a.len() ==> ascii_lower(#[trigger] a[i]) == ascii_lower(b[i])
}

fn chars_eq_ignore_ascii_case(a: &str, b: &str) -> (r: bool)
    ensures
        r == eq_ignore_ascii_case(a@, b@),
{
    let x = crate::text::chars_of(a);
    let y = crate::text::chars_of(b);
    if x.len() != y.len() {
        return false;
    }
    let mut i: usize = 0;
    while i < x.len()
        invariant
            i <= x.len(),
            x.len() == y.len(),
            x@ == a@,
            y@ == b@,
            forall|j: int| 0 <= j < i ==> ascii_lower(#[trigger] x@[j]) == ascii_lower(y@[j]),
        decreases x.len() - i,
    {
        if to_ascii_lower(x[i]) != to_ascii_lower(y[i]) {
            return false;
        }
        i = i + 1;
    }
    true
}

/// Whether the session is a Wayland one: `WAYLAND_DISPLAY` is set, or
/// `XDG_SESSION_TYPE` is `wayland` in any ASCII case.
pub fn linux_is_wayland_session(wayland_display_set: bool, session_type: Option<&str>) -> (r: bool)
    ensures
        r == (wayland_display_set || match session_type {
            Some(t) => eq_ignore_ascii_case(t@, "wayland"@),
            None => false,
        }),
{
    if wayland_display_set {
        return true;
    }
    match session_type {
        Some(t) => chars_eq_ignore_ascii_case(t, "wayland"),
        None => false,
    }
}

/// The entries of `items` whose flag is set, in order.
pub open spec fn selected<T>(items: Seq<T>, flags: Seq<bool>) -> Seq<T>
    decreases items.len(),
{
    if items.len() == 0 || flags.len() == 0 {
        Seq::<T>::empty()
    } else {
        let rest = selected(items.drop_last(), flags.drop_last());
        if flags.last() {
            rest.push(items.last())
        } else {
            rest
        }
    }
}

/// The application ids whose screencast permission was granted, in order: the ids for
/// which the permission store call succeeded (`granted[i]` for `app_ids[i]`).
pub fn linux_auto_grant_screencast_permissions(app_ids: &Vec<String>, granted: &Vec<bool>) -> (r: Vec<String>)
    requires
        granted.len() == app_ids.len(),
    ensures
        r@ == selected(app_ids@, granted@),
{
    let mut r: Vec<String> = Vec::new();
    let mut i: usize = 0;
    while i < app_ids.len()
        invariant
            i <= app_ids.len(),
            granted.len() == app_ids.len(),
            r@ == selected(app_ids@.take(i as int), granted@.take(i as int)),
        decreases app_ids.len() - i,
    {
        proof {
            assert(app_ids@.take(i + 1).drop_last() =~= app_ids@.take(i as int));
            assert(granted@.take(i + 1).drop_last() =~= granted@.take(i as int));
        }
        if granted[i] {
            r.push(app_ids[i].clone());
        }
        i = i + 1;
    }
    assert(app_ids@.take(app_ids.len() as int) =~= app_ids@);
    assert(granted@.take(granted.len() as int) =~= granted@);
    r
}

/// The shell command that grabs one PNG frame of the PipeWire stream `node_id`, reached
/// through the inherited descriptor `fd`, into the file `location` (quoted as one word).
pub fn gstreamer_frame_script(fd: i32, node_id: u32, location: &str) -> (r: String)
    ensures
        r@ == "exec gst-launch-1.0 -e pipewiresrc fd="@ + signed_decimal(fd as int) + " path="@
            + decimal(node_id as nat)
            + " num-buffers=2 ! videoconvert ! pngenc ! filesink location="@ + shell_quoted(
            location@,
        ),
{
    let mut r = String::new();
    push_text(&mut r, "exec gst-launch-1.0 -e pipewiresrc fd=");
    push_signed_decimal(&mut r, fd as i64);
    push_text(&mut r, " path=");
    push_decimal(&mut r, node_id as u128);
    push_text(&mut r, " num-buffers=2 ! videoconvert ! pngenc ! filesink location=");
    let quoted = shell_escape_single(location);
    push_text(&mut r, quoted.as_str());
    r
}

/// The name of the temporary file for one frame of stream `node_id` grabbed at `now_ms`:
/// `flowsight_screencast_<node>_<ms>.png`.
pub fn screencast_frame_file_name(node_id: u32, now_ms: u64) -> (r: String)
    ensures
        r@ == "flowsight_screencast_"@ + decimal(node_id as nat) + "_"@ + decimal(now_ms as nat)
            + ".png"@,
{
    let mut r = String::new();
    push_text(&mut r, "flowsight_screencast_");
    push_decimal(&mut r, node_id as u128);
    push_text(&mut r, "_");
    push_decimal(&mut r, now_ms as u128);
    push_text(&mut r, ".png");
    r
}

/// Whether a grabbed frame of `len` bytes is kept (smaller files are broken captures).
pub fn screencast_frame_acceptable(len: usize) -> (r: bool)
    ensures
        r == (len >= MIN_FRAME_BYTES),
{
    len >= MIN_FRAME_BYTES
}

/// Whether frames come from the silent ScreenCast session: on GNOME always (the
/// portal's Screenshot flashes there), whatever `WAYLAND_DISPLAY` says.
pub fn linux_use_silent_screencast(current_desktop: &str) -> (r: bool)
    ensures
        r == contains_run(ascii_lower_seq(current_desktop@), seq!['g', 'n', 'o', 'm', 'e']),
{
    linux_is_gnome_session(current_desktop)
}

/// The PipeWire node of the first stream that the portal started, or the error when it
/// started none.
pub fn first_stream_node(node_ids: &Vec<u32>) -> (r: Result<u32, String>)
    ensures
        node_ids@.len() > 0 ==> r == Ok::<u32, String>(node_ids@[0]),
        node_ids@.len() == 0 ==> crate::text::is_err_with(r, "ScreenCast: no stream"@),
{
    if node_ids.len() > 0 {
        Ok(node_ids[0])
    } else {
        Err("ScreenCast: no stream".to_string())
    }
}

/// The arguments of `gdbus` that grant the screencast permission to `app_id` in the
/// portal's permission store.
pub fn screencast_permission_args(app_id: &str) -> (r: Vec<String>)
    ensures
        str_list(r@) == seq![
            "call"@,
            "--session"@,
            "--dest"@,
            "org.freedesktop.impl.portal.PermissionStore"@,
            "--object-path"@,
            "/org/freedesktop/impl/portal/PermissionStore"@,
            "--method"@,
            "org.freedesktop.impl.portal.PermissionStore.SetPermission"@,
            "screencast"@,
            "true"@,
            "screencast"@,
            app_id@,
            "['yes']"@,
        ],
        r@.len() == 13,
        forall|i: int| 0 <= i < r@.len() ==> (#[trigger] r@[i])@ == str_list(r@)[i],
{
    let mut r: Vec<String> = Vec::new();
    r.push("call".to_string());
    r.push("--session".to_string());
    r.push("--dest".to_string());
    r.push("org.freedesktop.impl.portal.PermissionStore".to_string());
    r.push("--object-path".to_string());
    r.push("/org/freedesktop/impl/portal/PermissionStore".to_string());
    r.push("--method".to_string());
    r.push("org.freedesktop.impl.portal.PermissionStore.SetPermission".to_string());
    r.push("screencast".to_string());
    r.push("true".to_string());
    r.push("screencast".to_string());
    r.push(app_id.to_string());
    r.push("['yes']".to_string());
    assert(str_list(r@) =~= seq![
        "call"@,
        "--session"@,
        "--dest"@,
        "org.freedesktop.impl.portal.PermissionStore"@,
        "--object-path"@,
        "/org/freedesktop/impl/portal/PermissionStore"@,
        "--method"@,
        "org.freedesktop.impl.portal.PermissionStore.SetPermission"@,
        "screencast"@,
        "true"@,
        "screencast"@,
        app_id@,
        "['yes']"@,
    ]);
    r
}

} // verus!
