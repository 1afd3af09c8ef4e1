use flowsight_agent::screencast::{gstreamer_frame_script, screencast_frame_file_name};
use flowsight_agent::shell::shell_escape_single;

/// Reads a word made of single- and double-quoted runs as a POSIX shell does.
fn shell_value(word: &str) -> Option<String> {
    let mut out = String::new();
    let mut state = 0; // 0 outside, 1 single, 2 double
    for c in word.chars() {
        match state {
            0 => match c {
                '\'' => state = 1,
                '"' => state = 2,
                _ => return None,
            },
            1 => {
                if c == '\'' {
                    state = 0;
                } else {
                    out.push(c);
                }
            }
            _ => {
                if c == '"' {
                    state = 0;
                } else if c == '$' || c == '`' || c == '\\' {
                    return None;
                } else {
                    out.push(c);
                }
            }
        }
    }
    if state == 0 {
        Some(out)
    } else {
        None
    }
}

#[test]
fn escape_plain_path() {
    assert_eq!(shell_escape_single("/tmp/frame.png"), "'/tmp/frame.png'");
}

#[test]
fn escape_empty_text() {
    assert_eq!(shell_escape_single(""), "''");
}

#[test]
fn escape_single_quote() {
    assert_eq!(shell_escape_single("it's"), "'it'\"'\"'s'");
    assert_eq!(shell_escape_single("'"), "''\"'\"''");
}

#[test]
fn escaped_words_read_back_unchanged() {
    for s in ["", "a", "it's", "''", "$HOME `x` \\ \"q\"", "/tmp/my shots/ünïcode'.png", "'a'b'"] {
        assert_eq!(shell_value(&shell_escape_single(s)).as_deref(), Some(s));
    }
}

#[test]
fn gstreamer_script_text() {
    assert_eq!(
        gstreamer_frame_script(42, 77, "/tmp/a b.png"),
        "exec gst-launch-1.0 -e pipewiresrc fd=42 path=77 num-buffers=2 ! videoconvert ! pngenc ! filesink location='/tmp/a b.png'"
    );
    assert_eq!(
        gstreamer_frame_script(-1, 0, "x'y"),
        "exec gst-launch-1.0 -e pipewiresrc fd=-1 path=0 num-buffers=2 ! videoconvert ! pngenc ! filesink location='x'\"'\"'y'"
    );
}

#[test]
fn screencast_file_name() {
    assert_eq!(
        screencast_frame_file_name(12, 1700000000123),
        "flowsight_screencast_12_1700000000123.png"
    );
    assert_eq!(screencast_frame_file_name(0, 0), "flowsight_screencast_0_0.png");
}
