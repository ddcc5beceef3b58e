//! Pure parts of talking to the outside world: which MIDI messages count as
//! key presses, how the engine is started and when it is ready.
use vstd::prelude::*;

verus! {

/// Status byte of a note-on message on the first channel.
pub const NOTE_ON: u8 = 144;

/// The key of a MIDI message if it is a note-on with positive velocity.
pub open spec fn note_on_key_of(message: Seq<u8>) -> Option<u8> {
    if message.len() >= 3 && message[0] == NOTE_ON && message[2] > 0 {
        Some(message[1])
    } else {
        None
    }
}

/// The key pressed by `message`, if it is a note-on with positive velocity;
/// every other message is filtered out.
pub fn note_on_key(message: &[u8]) -> (r: Option<u8>)
    ensures
        r == note_on_key_of(message@),
{
    if message.len() >= 3 && message[0] == NOTE_ON && message[2] > 0 {
        Some(message[1])
    } else {
        None
    }
}

/// The arguments the engine is started with: headless, without default key
/// bindings or configuration, with an IPC endpoint and an optional output device.
pub open spec fn engine_arguments_spec(socket_path: Seq<char>, output_device: Option<Seq<char>>) -> Seq<Seq<char>> {
    let base = seq![
        "-v"@,
        "--idle"@,
        "--no-video"@,
        "--no-input-default-bindings"@,
        "--no-config"@,
        "--input-ipc-server="@ + socket_path,
    ];
    match output_device {
        Some(d) => base.push("--audio-device="@ + d),
        None => base,
    }
}

/// The arguments the engine is started with.
pub fn engine_arguments(socket_path: &String, output_device: &Option<String>) -> (r: Vec<String>)
    ensures
        r@.map_values(|s: String| s@) == engine_arguments_spec(
            socket_path@,
            match output_device {
                Some(d) => Some(d@),
                None => None,
            },
        ),
{
    let mut args: Vec<String> = Vec::new();
    args.push(String::from_str("-v"));
    args.push(String::from_str("--idle"));
    args.push(String::from_str("--no-video"));
    args.push(String::from_str("--no-input-default-bindings"));
    args.push(String::from_str("--no-config"));
    let mut socket_arg = String::from_str("--input-ipc-server=");
    socket_arg.append(socket_path.as_str());
    args.push(socket_arg);
    match output_device {
        Some(device) => {
            let mut device_arg = String::from_str("--audio-device=");
            device_arg.append(device.as_str());
            args.push(device_arg);
        },
        None => {},
    }
    assert(args@.map_values(|s: String| s@) =~= engine_arguments_spec(
        socket_path@,
        match output_device {
            Some(d) => Some(d@),
            None => None,
        },
    ));
    args
}

/// Whether `pattern` occurs in `text` starting at `i`.
pub open spec fn occurs_at(text: Seq<char>, pattern: Seq<char>, i: int) -> bool {
    0 <= i && i + pattern.len() <= text.len() && text.subrange(i, i + pattern.len()) == pattern
}

/// Whether `pattern` occurs anywhere in `text`.
pub open spec fn occurs_in(text: Seq<char>, pattern: Seq<char>) -> bool {
    exists|i: int| occurs_at(text, pattern, i)
}

/// The characters of `s`.
fn chars_of(s: &str) -> (r: Vec<char>)
    ensures
        r@ == s@,
{
    let n = s.unicode_len();
    let mut out: Vec<char> = Vec::new();
    let mut i: usize = 0;
    while i < n
        invariant
            n == s@.len(),
            i <= n,
            out@ == s@.subrange(0, i as int),
        decreases n - i,
    {
        out.push(s.get_char(i));
        i = i + 1;
    }
    assert(out@ =~= s@);
    out
}

/// Whether `pattern` occurs in `text` at `i`, compared character by character.
fn matches_at(text: &Vec<char>, pattern: &Vec<char>, i: usize) -> (r: bool)
    requires
        i + pattern@.len() <= text@.len(),
    ensures
        r == occurs_at(text@, pattern@, i as int),
{
    let text_len = text.len();
    let mut k: usize = 0;
    while k < pattern.len()
        invariant
            text_len == text@.len(),
            i + pattern@.len() <= text@.len(),
            k <= pattern@.len(),
            forall|m: int| 0 <= m < k ==> text@[i + m] == pattern@[m],
        decreases pattern@.len() - k,
    {
        if text[i + k] != pattern[k] {
            assert(text@.subrange(i as int, i + pattern@.len())[k as int] != pattern@[k as int]);
            return false;
        }
        k = k + 1;
    }
    assert(text@.subrange(i as int, i + pattern@.len()) =~= pattern@);
    true
}

/// Whether `pattern` occurs anywhere in `text`.
pub fn contains_text(text: &str, pattern: &str) -> (r: bool)
    ensures
        r == occurs_in(text@, pattern@),
{
    let t = chars_of(text);
    let p = chars_of(pattern);
    if p.len() > t.len() {
        assert forall|i: int| !occurs_at(text@, pattern@, i) by {}
        return false;
    }
    if p.len() == 0 {
        assert(text@.subrange(0, 0) =~= pattern@);
        assert(occurs_at(text@, pattern@, 0));
        return true;
    }
    let text_len = t.len();
    let last = t.len() - p.len();
    let mut i: usize = 0;
    while i <= last
        invariant
            t@ == text@,
            p@ == pattern@,
            last == t@.len() - p@.len(),
            text_len == t@.len(),
            p@.len() > 0,
            i <= last + 1,
            forall|j: int| 0 <= j < i ==> !occurs_at(text@, pattern@, j),
        decreases last + 1 - i,
    {
        if matches_at(&t, &p, i) {
            return true;
        }
        i = i + 1;
    }
    assert forall|j: int| !occurs_at(text@, pattern@, j) by {
        if 0 <= j && j + pattern@.len() <= text@.len() {
            assert(j < i);
        }
    }
    false
}

/// The log line that the engine prints once it is ready for commands.
pub const READY_MARKER: &'static str = "Done loading scripts.";

/// Whether a line of the engine's startup log says that it is ready.
pub fn is_ready_line(line: &str) -> (r: bool)
    ensures
        r == occurs_in(line@, READY_MARKER@),
{
    contains_text(line, READY_MARKER)
}

} // verus!
