//! The clipboard bridge: the one-shot clipboard event, a single-slot mailbox
//! held in one file and consumed here at most once, and the copy of a capture
//! onto the system clipboard.
use vstd::prelude::*;
use vstd::string::*;

verus! {

#[verifier::external_type_specification]
#[verifier::external_body]
pub struct ExJsonValue(serde_json::Value);

/// Whether `text` is one JSON value, as serde_json reads it.
pub uninterp spec fn json_accepts(text: Seq<char>) -> bool;

/// Relies on serde_json::from_str into a `serde_json::Value`: it succeeds
/// exactly on text that is one JSON value, which depends on the text alone.
/// The error is handed back as its message.
#[verifier::external_body]
fn parse_json_value(text: &str) -> (r: Result<serde_json::Value, String>)
    ensures
        r is Ok == json_accepts(text@),
{
    serde_json::from_str::<serde_json::Value>(text).map_err(|e| e.to_string())
}

/// The mailbox: the text of the event file, while there is one.
pub struct ClipboardMailbox {
    pub pending: Option<String>,
}

pub open spec fn pending_text(p: Option<String>) -> Option<Seq<char>> {
    match p {
        Some(t) => Some(t@),
        None => None,
    }
}

/// A poll of a mailbox holding `p` hands an event out.
pub open spec fn poll_delivers(p: Option<Seq<char>>) -> bool {
    p matches Some(t) && json_accepts(t)
}

/// A poll of a mailbox holding `p` finds nothing.
pub open spec fn poll_finds_nothing(p: Option<Seq<char>>) -> bool {
    p is None
}

/// What a mailbox holding `p` holds after a poll: a delivered event is
/// consumed, malformed text is left where it is.
pub open spec fn after_poll(p: Option<Seq<char>>) -> Option<Seq<char>> {
    if poll_delivers(p) {
        None
    } else {
        p
    }
}

pub open spec fn parse_failure_message(reason: Seq<char>) -> Seq<char> {
    "Failed to parse clipboard event JSON: "@ + reason
}

impl ClipboardMailbox {
    /// Takes the pending event: `Ok(None)` when there is none; the parsed
    /// value when its text is JSON, which empties the mailbox; an error, with
    /// the text left in place, when it is not.
    pub fn poll(&mut self) -> (r: Result<Option<serde_json::Value>, String>)
        ensures
            pending_text(final(self).pending) == after_poll(pending_text(old(self).pending)),
            poll_finds_nothing(pending_text(old(self).pending)) ==> r matches Ok(None),
            poll_delivers(pending_text(old(self).pending)) ==> r matches Ok(Some(_)),
            old(self).pending is Some && !poll_delivers(pending_text(old(self).pending)) ==> (
            r matches Err(m) && exists|reason: Seq<char>| m@ == parse_failure_message(reason)),
    {
        match self.pending.take() {
            None => Ok(None),
            Some(text) => match parse_json_value(text.as_str()) {
                Ok(v) => Ok(Some(v)),
                Err(reason) => {
                    let m = String::from_str("Failed to parse clipboard event JSON: ").concat(
                        reason.as_str(),
                    );
                    assert(m@ == parse_failure_message(reason@));
                    self.pending = Some(text);
                    Err(m)
                },
            },
        }
    }
}

/// With no write in between, a second poll finds nothing: the first hands
/// the event out and empties the mailbox.
pub proof fn lemma_event_delivered_once(t: Seq<char>)
    requires
        json_accepts(t),
    ensures
        poll_delivers(Some(t)),
        poll_finds_nothing(after_poll(Some(t))),
{
}

/// How the system clipboard copy of a capture went.
#[derive(Debug, Clone, PartialEq, Eq)]
pub enum CopyRun {
    /// The capture file does not exist; nothing was run.
    NotFound,
    /// The clipboard command could not be started; the message says why.
    LaunchFailed(String),
    /// The clipboard command ran, and exited with or without success.
    Exited { success: bool, stderr: String },
}

pub open spec fn script_for(path: Seq<char>) -> Seq<char> {
    "set the clipboard to (read file POSIX file \""@ + path + "\") as JPEG picture"@
}

pub open spec fn copy_result_of(run: CopyRun) -> Result<(), Seq<char>> {
    match run {
        CopyRun::NotFound => Err("Image file not found"@),
        CopyRun::LaunchFailed(e) => Err("Failed to execute osascript: "@ + e@),
        CopyRun::Exited { success, stderr } => if success {
            Ok(())
        } else {
            Err("Failed to copy image to clipboard: "@ + stderr@)
        },
    }
}

/// The AppleScript line that puts the image at `path` on the clipboard.
pub fn clipboard_script(path: &str) -> (r: String)
    ensures
        r@ == script_for(path@),
{
    String::from_str("set the clipboard to (read file POSIX file \"").concat(path).concat(
        "\") as JPEG picture",
    )
}

/// What a clipboard copy comes to: success only when the command ran and
/// exited with success; otherwise an error that carries its diagnostic.
pub fn copy_result(run: CopyRun) -> (r: Result<(), String>)
    ensures
        r matches Ok(_) <==> copy_result_of(run) is Ok,
        r matches Err(m) ==> copy_result_of(run) == Err::<(), Seq<char>>(m@),
{
    match run {
        CopyRun::NotFound => Err(String::from_str("Image file not found")),
        CopyRun::LaunchFailed(e) => Err(String::from_str("Failed to execute osascript: ").concat(
            e.as_str(),
        )),
        CopyRun::Exited { success, stderr } => if success {
            Ok(())
        } else {
            Err(String::from_str("Failed to copy image to clipboard: ").concat(stderr.as_str()))
        },
    }
}

} // verus!
