//! The commands that deliver a completion on macOS, and the texts they carry.
//!
//! Nothing is run here. A handler says which program delivers a text and what the
//! program is given; the caller runs it.

use crate::config::models::OutputMethod;
use crate::error::{ErrorView, RephraserError};
use crate::text::{chars_of, concat_str, push_str, str_eq, string_of};
use vstd::prelude::*;
use vstd::utf8::{
    decode_utf8, decode_utf8_encode_utf8, decode_utf8_split, encode_utf8, is_char_boundary,
    valid_utf8, valid_utf8_split,
};

verus! {

/// The longest notification, in bytes, ellipsis included.
pub const MAX_NOTIFICATION_LENGTH: usize = 200;

/// The name under which the platform that can deliver goes.
pub const MACOS: &'static str = "macos";

/// What stands for one character inside an AppleScript string literal: a backslash
/// before a backslash and before a double quote, every other character as it is.
pub open spec fn escaped_char(c: char) -> Seq<char> {
    if c == '\\' {
        seq!['\\', '\\']
    } else if c == '"' {
        seq!['\\', '"']
    } else {
        seq![c]
    }
}

/// A text as it stands inside an AppleScript string literal.
pub open spec fn escaped(s: Seq<char>) -> Seq<char>
    decreases s.len(),
{
    if s.len() == 0 {
        Seq::empty()
    } else {
        escaped(s.drop_last()) + escaped_char(s.last())
    }
}

/// A text with each line feed and each carriage return turned into a space.
pub open spec fn single_line(s: Seq<char>) -> Seq<char> {
    s.map_values(
        |c: char|
            if c == '\n' || c == '\r' {
                ' '
            } else {
                c
            },
    )
}

/// The greatest offset not above `at` at which a character of the encoded text begins
/// or the text ends; zero where `at` is below zero.
pub open spec fn boundary_at_or_below(bytes: Seq<u8>, at: int) -> int
    decreases at,
{
    if at <= 0 {
        0
    } else if is_char_boundary(bytes, at) {
        at
    } else {
        boundary_at_or_below(bytes, at - 1)
    }
}

/// A text cut down to at most `max` bytes of UTF-8. A text that fits is left as it is.
/// A longer one is cut at the last character boundary that leaves three bytes free, or
/// at its start where `max` is below three, and gets an ellipsis of three full stops.
pub open spec fn truncated(s: Seq<char>, max: int) -> Seq<char> {
    let bytes = encode_utf8(s);
    if bytes.len() <= max {
        s
    } else {
        decode_utf8(bytes.subrange(0, boundary_at_or_below(bytes, max - 3))) + "..."@
    }
}

/// `boundary_at_or_below` finds a boundary, and the greatest one not above `at`.
pub proof fn lemma_boundary_is_greatest(bytes: Seq<u8>, at: int)
    requires
        valid_utf8(bytes),
    ensures
        is_char_boundary(bytes, boundary_at_or_below(bytes, at)),
        0 <= boundary_at_or_below(bytes, at),
        at >= 0 ==> boundary_at_or_below(bytes, at) <= at,
        forall|j: int| boundary_at_or_below(bytes, at) < j <= at ==> !is_char_boundary(bytes, j),
    decreases at,
{
    if at > 0 && !is_char_boundary(bytes, at) {
        lemma_boundary_is_greatest(bytes, at - 1);
    }
}

/// A text that does not fit is cut to one of its own prefixes, whole characters only,
/// and the ellipsis is put behind it. The prefix takes exactly as many bytes as the
/// boundary says: at most `max - 3` where `max` is three or more, and none otherwise.
pub proof fn lemma_truncated_cuts_a_prefix(s: Seq<char>, max: int)
    requires
        encode_utf8(s).len() > max,
    ensures
        exists|k: int|
            0 <= k <= s.len() && #[trigger] truncated(s, max) == s.take(k) + "..."@
                && encode_utf8(s.take(k)).len() == boundary_at_or_below(
                encode_utf8(s),
                max - 3,
            ),
        max >= 3 ==> boundary_at_or_below(encode_utf8(s), max - 3) <= max - 3,
        max < 3 ==> boundary_at_or_below(encode_utf8(s), max - 3) == 0,
{
    broadcast use vstd::utf8::group_utf8_lib;

    let bytes = encode_utf8(s);
    let cut = boundary_at_or_below(bytes, max - 3);
    lemma_boundary_is_greatest(bytes, max - 3);
    assert(cut <= bytes.len()) by {
        if cut > 0 {
            assert(is_char_boundary(bytes, cut));
        }
    }
    let head = decode_utf8(bytes.subrange(0, cut));
    let tail = decode_utf8(bytes.subrange(cut, bytes.len() as int));
    assert(s =~= head + tail) by {
        decode_utf8_split(bytes, cut);
        assert(decode_utf8(bytes) == s);
    }
    let k = head.len() as int;
    assert(s.take(k) =~= head);
    assert(encode_utf8(head) == bytes.subrange(0, cut)) by {
        valid_utf8_split(bytes, cut);
        decode_utf8_encode_utf8(bytes.subrange(0, cut));
    }
    assert(truncated(s, max) == s.take(k) + "..."@);
}

/// The script that shows `text` as a notification.
pub open spec fn notification_script_of(text: Seq<char>) -> Seq<char> {
    "display notification \""@ + escaped(
        single_line(truncated(text, MAX_NOTIFICATION_LENGTH as int)),
    ) + "\" with title \"Rephraser\""@
}

/// The script that shows `text` in a dialog with one button.
pub open spec fn dialog_script_of(text: Seq<char>) -> Seq<char> {
    "display dialog \""@ + escaped(text)
        + "\" with title \"Rephraser\" buttons {\"OK\"} default button \"OK\""@
}

/// `text` as it stands inside an AppleScript string literal.
pub fn escape_applescript_string(text: &str) -> (out: String)
    ensures
        out@ == escaped(text@),
{
    let chars = chars_of(text);
    let mut out: Vec<char> = Vec::new();
    let mut i: usize = 0;
    while i < chars.len()
        invariant
            i <= chars.len(),
            out@ == escaped(chars@.take(i as int)),
        decreases chars.len() - i,
    {
        let c = chars[i];
        proof {
            let upto = chars@.take(i + 1);
            assert(upto.drop_last() =~= chars@.take(i as int));
            assert(upto.last() == c);
        }
        if c == '\\' || c == '"' {
            out.push('\\');
        }
        out.push(c);
        proof {
            assert(out@ =~= escaped(chars@.take(i as int)) + escaped_char(c));
        }
        i += 1;
    }
    proof {
        assert(chars@.take(chars.len() as int) =~= chars@);
    }
    string_of(&out)
}

/// `text` cut down to at most `max` bytes, with an ellipsis where it was cut.
pub fn truncate_notification_text(text: &str, max: usize) -> (out: String)
    ensures
        out@ == truncated(text@, max as int),
{
    broadcast use vstd::utf8::group_utf8_lib;

    if text.as_bytes().len() <= max {
        return text.to_owned();
    }
    let ghost bytes = encode_utf8(text@);
    let mut at: usize = if max >= 3 {
        max - 3
    } else {
        0
    };
    while at > 0 && !text.is_char_boundary(at)
        invariant
            bytes == encode_utf8(text@),
            at <= max,
            boundary_at_or_below(bytes, max - 3) == boundary_at_or_below(bytes, at as int),
        decreases at,
    {
        at -= 1;
    }
    let (head, _) = text.split_at(at);
    proof {
        assert(head@ == decode_utf8(bytes.subrange(0, at as int))) by {
            assert(decode_utf8(encode_utf8(head@)) == head@);
        }
    }
    concat_str(head, "...")
}

/// `text` with each line feed and each carriage return turned into a space.
fn flatten(text: &Vec<char>) -> (out: Vec<char>)
    ensures
        out@ == single_line(text@),
{
    let mut out: Vec<char> = Vec::new();
    let mut i: usize = 0;
    while i < text.len()
        invariant
            i <= text.len(),
            out@ == single_line(text@).take(i as int),
        decreases text.len() - i,
    {
        let c = text[i];
        if c == '\n' || c == '\r' {
            out.push(' ');
        } else {
            out.push(c);
        }
        proof {
            assert(out@ =~= single_line(text@).take(i + 1));
        }
        i += 1;
    }
    proof {
        assert(single_line(text@).take(text.len() as int) =~= single_line(text@));
    }
    out
}

/// The script that shows `text` as a notification: cut to the longest notification,
/// put on one line, escaped.
pub fn notification_script(text: &str) -> (script: String)
    ensures
        script@ == notification_script_of(text@),
{
    let short = truncate_notification_text(text, MAX_NOTIFICATION_LENGTH);
    let line = string_of(&flatten(&chars_of(short.as_str())));
    let inner = escape_applescript_string(line.as_str());
    let mut out: Vec<char> = Vec::new();
    push_str(&mut out, "display notification \"");
    push_str(&mut out, inner.as_str());
    push_str(&mut out, "\" with title \"Rephraser\"");
    string_of(&out)
}

/// The script that shows `text` in a dialog with one button.
pub fn dialog_script(text: &str) -> (script: String)
    ensures
        script@ == dialog_script_of(text@),
{
    let inner = escape_applescript_string(text);
    let mut out: Vec<char> = Vec::new();
    push_str(&mut out, "display dialog \"");
    push_str(&mut out, inner.as_str());
    push_str(&mut out, "\" with title \"Rephraser\" buttons {\"OK\"} default button \"OK\"");
    string_of(&out)
}

/// The error that delivery is not to be had on this platform.
pub open spec fn unsupported_platform() -> ErrorView {
    ErrorView::Output("Output methods are only supported on macOS"@)
}

/// Whether the platform called `os` can deliver: only macOS can.
pub fn check_macos_platform(os: &str) -> (result: Result<(), RephraserError>)
    ensures
        os@ == MACOS@ ==> result is Ok,
        os@ != MACOS@ ==> (result matches Err(e) && e@ == unsupported_platform()),
{
    if str_eq(os, MACOS) {
        Ok(())
    } else {
        Err(RephraserError::Output("Output methods are only supported on macOS".to_owned()))
    }
}

/// A program to run: its name, its arguments, and what it reads from its standard
/// input, if it is to read anything.
#[derive(Debug)]
pub struct Delivery {
    pub program: String,
    pub args: Vec<String>,
    pub input: Option<String>,
}

/// A program to run, as a mathematical value.
pub struct DeliveryView {
    pub program: Seq<char>,
    pub args: Seq<Seq<char>>,
    pub input: Option<Seq<char>>,
}

impl View for Delivery {
    type V = DeliveryView;

    open spec fn view(&self) -> DeliveryView {
        DeliveryView {
            program: self.program@,
            args: self.args@.map_values(|a: String| a@),
            input: match self.input {
                Some(text) => Some(text@),
                None => None,
            },
        }
    }
}

/// The program that delivers `text` by `method`: `pbcopy` reads the text itself,
/// `osascript` is given a script that shows it.
pub open spec fn delivery_of(method: OutputMethod, text: Seq<char>) -> DeliveryView {
    match method {
        OutputMethod::Clipboard => DeliveryView {
            program: "pbcopy"@,
            args: Seq::empty(),
            input: Some(text),
        },
        OutputMethod::Notification => DeliveryView {
            program: "osascript"@,
            args: seq!["-e"@, notification_script_of(text)],
            input: None,
        },
        OutputMethod::Dialog => DeliveryView {
            program: "osascript"@,
            args: seq!["-e"@, dialog_script_of(text)],
            input: None,
        },
    }
}

/// Where running a delivery went wrong.
#[derive(Debug, Clone, Copy, PartialEq, Eq, Structural)]
pub enum Stage {
    /// The program could not be started.
    Spawn,
    /// The program could not be given its input.
    Write,
    /// The program could not be waited for.
    Wait,
    /// The program ran and reported failure.
    Exit,
}

/// How the detail of a delivery error begins. `pbcopy` is started, fed and waited
/// for in three steps; `osascript` is executed in one.
pub open spec fn failure_prefix(method: OutputMethod, stage: Stage) -> Seq<char> {
    match method {
        OutputMethod::Clipboard => match stage {
            Stage::Spawn => "Failed to spawn pbcopy: "@,
            Stage::Write => "Failed to write to pbcopy stdin: "@,
            Stage::Wait => "Failed to wait for pbcopy: "@,
            Stage::Exit => "pbcopy exited with status: "@,
        },
        OutputMethod::Notification => match stage {
            Stage::Exit => "osascript failed: "@,
            _ => "Failed to execute osascript: "@,
        },
        OutputMethod::Dialog => match stage {
            Stage::Exit => "osascript dialog failed: "@,
            _ => "Failed to execute osascript: "@,
        },
    }
}

/// Hands completions to the user by one method.
pub struct OutputHandler {
    method: OutputMethod,
}

impl View for OutputHandler {
    type V = OutputMethod;

    closed spec fn view(&self) -> OutputMethod {
        self.method
    }
}

impl OutputHandler {
    /// A handler that delivers by `method`.
    pub fn new(method: OutputMethod) -> (handler: Self)
        ensures
            handler@ == method,
    {
        OutputHandler { method }
    }

    /// The program that delivers `text` on the platform called `os`, or the error that
    /// the platform cannot deliver.
    pub fn handle(&self, text: &str, os: &str) -> (result: Result<Delivery, RephraserError>)
        ensures
            os@ == MACOS@ ==> (result matches Ok(d) && d@ == delivery_of(self@, text@)),
            os@ != MACOS@ ==> (result matches Err(e) && e@ == unsupported_platform()),
    {
        match check_macos_platform(os) {
            Err(e) => Err(e),
            Ok(()) => {
                let mut args: Vec<String> = Vec::new();
                let delivery = match self.method {
                    OutputMethod::Clipboard => Delivery {
                        program: "pbcopy".to_owned(),
                        args,
                        input: Some(text.to_owned()),
                    },
                    OutputMethod::Notification => {
                        args.push("-e".to_owned());
                        args.push(notification_script(text));
                        Delivery { program: "osascript".to_owned(), args, input: None }
                    },
                    OutputMethod::Dialog => {
                        args.push("-e".to_owned());
                        args.push(dialog_script(text));
                        Delivery { program: "osascript".to_owned(), args, input: None }
                    },
                };
                proof {
                    assert(delivery@.args =~= delivery_of(self@, text@).args);
                }
                Ok(delivery)
            },
        }
    }

    /// The error for a delivery that went wrong at `stage`. `report` is what the system
    /// said: the I/O error, the exit status of `pbcopy`, or what `osascript` wrote to its
    /// standard error.
    pub fn failure(&self, stage: Stage, report: &str) -> (error: RephraserError)
        ensures
            error@ == ErrorView::Output(failure_prefix(self@, stage) + report@),
    {
        let prefix = match self.method {
            OutputMethod::Clipboard => match stage {
                Stage::Spawn => "Failed to spawn pbcopy: ",
                Stage::Write => "Failed to write to pbcopy stdin: ",
                Stage::Wait => "Failed to wait for pbcopy: ",
                Stage::Exit => "pbcopy exited with status: ",
            },
            OutputMethod::Notification => match stage {
                Stage::Exit => "osascript failed: ",
                _ => "Failed to execute osascript: ",
            },
            OutputMethod::Dialog => match stage {
                Stage::Exit => "osascript dialog failed: ",
                _ => "Failed to execute osascript: ",
            },
        };
        RephraserError::Output(concat_str(prefix, report))
    }
}

} // verus!
