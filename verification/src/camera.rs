//! Camera events and the pure decisions behind the camera operations: the
//! decoding of driver-emitted event tags into a closed variant set, the
//! translation of a whole event poll's outcome, and the guard on whole-tree
//! configuration writes. The blocking driver calls themselves live with the
//! glue around this library; they feed their raw outcomes through these
//! functions, so every status and tag is interpreted exactly once.

use vstd::prelude::*;

use crate::error::{status_error, Error};
use crate::widget::{Widget, WidgetType};

verus! {

/// A location on the device filesystem: pure data, owned by nobody but the
/// caller. Produced by capture and by file events.
#[derive(Clone, Debug)]
pub struct CameraFilePath {
    /// The folder holding the entry (for a new folder: its parent).
    pub folder: String,
    /// The entry's name.
    pub name: String,
}

/// Event from camera: the closed set of outcomes one poll can produce.
#[derive(Clone, Debug)]
pub enum CameraEvent {
    /// A tag this layer does not know; kept for forward compatibility.
    Unknown,
    /// No event arrived within the requested time. A successful outcome,
    /// not an error.
    Timeout,
    /// A new file was added.
    NewFile(CameraFilePath),
    /// A file has changed.
    FileChanged(CameraFilePath),
    /// A new folder was added: `folder` is the parent and `name` the name
    /// of the created folder.
    NewFolder(CameraFilePath),
    /// A capture completed.
    CaptureComplete,
}

/// Driver event tag: no event of interest.
pub const EVENT_TAG_UNKNOWN: i32 = 0;

/// Driver event tag: the wait ran out without an event.
pub const EVENT_TAG_TIMEOUT: i32 = 1;

/// Driver event tag: a file was added; the payload is its path.
pub const EVENT_TAG_FILE_ADDED: i32 = 2;

/// Driver event tag: a folder was added; the payload is its path.
pub const EVENT_TAG_FOLDER_ADDED: i32 = 3;

/// Driver event tag: a capture completed; no payload.
pub const EVENT_TAG_CAPTURE_COMPLETE: i32 = 4;

/// Driver event tag: a file changed; the payload is its path.
pub const EVENT_TAG_FILE_CHANGED: i32 = 5;

/// The event a tag and its payload decode to. The payload's meaning is
/// fixed by the tag alone; a tag outside the known set, or a path-carrying
/// tag whose payload is missing, decodes to `Unknown` rather than failing.
pub open spec fn decoded_event(tag: i32, payload: Option<CameraFilePath>) -> CameraEvent {
    if tag == EVENT_TAG_TIMEOUT {
        CameraEvent::Timeout
    } else if tag == EVENT_TAG_CAPTURE_COMPLETE {
        CameraEvent::CaptureComplete
    } else if tag == EVENT_TAG_FILE_ADDED && payload is Some {
        CameraEvent::NewFile(payload->Some_0)
    } else if tag == EVENT_TAG_FOLDER_ADDED && payload is Some {
        CameraEvent::NewFolder(payload->Some_0)
    } else if tag == EVENT_TAG_FILE_CHANGED && payload is Some {
        CameraEvent::FileChanged(payload->Some_0)
    } else {
        CameraEvent::Unknown
    }
}

/// Decodes one driver event into an owned value.
pub fn decode_event(tag: i32, payload: Option<CameraFilePath>) -> (r: CameraEvent)
    ensures
        r == decoded_event(tag, payload),
{
    if tag == EVENT_TAG_TIMEOUT {
        CameraEvent::Timeout
    } else if tag == EVENT_TAG_CAPTURE_COMPLETE {
        CameraEvent::CaptureComplete
    } else if tag == EVENT_TAG_FILE_ADDED || tag == EVENT_TAG_FOLDER_ADDED || tag
        == EVENT_TAG_FILE_CHANGED {
        match payload {
            Option::Some(path) => {
                if tag == EVENT_TAG_FILE_ADDED {
                    CameraEvent::NewFile(path)
                } else if tag == EVENT_TAG_FOLDER_ADDED {
                    CameraEvent::NewFolder(path)
                } else {
                    CameraEvent::FileChanged(path)
                }
            },
            Option::None => CameraEvent::Unknown,
        }
    } else {
        CameraEvent::Unknown
    }
}

/// What a whole event poll yields, given the driver's raw outcome: on a
/// non-negative status the decoded event (a timeout among them, as a
/// success), on a negative status the translated error.
pub open spec fn wait_event_outcome_spec(
    status: i32,
    message: String,
    tag: i32,
    payload: Option<CameraFilePath>,
) -> Result<CameraEvent, Error> {
    if status >= 0 {
        Ok(decoded_event(tag, payload))
    } else {
        Err(status_error(status, message))
    }
}

/// Translates one event poll's raw outcome into an owned event or a
/// structured error.
pub fn wait_event_outcome(
    status: i32,
    message: String,
    tag: i32,
    payload: Option<CameraFilePath>,
) -> (r: Result<CameraEvent, Error>)
    ensures
        r == wait_event_outcome_spec(status, message, tag, payload),
{
    match crate::error::check_status(status, message) {
        Ok(()) => Ok(decode_event(tag, payload)),
        Err(e) => Err(e),
    }
}

/// What the guard on a whole-tree configuration write decides: only a
/// window root may be written back as a whole.
pub open spec fn window_root_check(w: Widget) -> Result<(), Error> {
    if w.kind == WidgetType::Window {
        Ok(())
    } else {
        Err(Error::TypeMismatch)
    }
}

/// Guards a whole-tree configuration write: a root that is not a window is
/// `TypeMismatch`. The caller performs the device write only after `Ok`,
/// so a rejected root writes nothing; this check reads the tree and never
/// changes it.
pub fn validate_all_config(config: &Widget) -> (r: Result<(), Error>)
    ensures
        r == window_root_check(*config),
{
    if config.widget_type() == WidgetType::Window {
        Ok(())
    } else {
        Err(Error::TypeMismatch)
    }
}

/// Law: each known tag decodes to its own variant carrying the payload
/// exactly, and every tag outside the known set decodes to `Unknown`.
pub proof fn lemma_event_decoding(tag: i32, path: CameraFilePath)
    ensures
        decoded_event(EVENT_TAG_TIMEOUT, Some(path)) == CameraEvent::Timeout,
        decoded_event(EVENT_TAG_CAPTURE_COMPLETE, Some(path)) == CameraEvent::CaptureComplete,
        decoded_event(EVENT_TAG_FILE_ADDED, Some(path)) == CameraEvent::NewFile(path),
        decoded_event(EVENT_TAG_FOLDER_ADDED, Some(path)) == CameraEvent::NewFolder(path),
        decoded_event(EVENT_TAG_FILE_CHANGED, Some(path)) == CameraEvent::FileChanged(path),
        !(tag == EVENT_TAG_TIMEOUT || tag == EVENT_TAG_CAPTURE_COMPLETE || tag
            == EVENT_TAG_FILE_ADDED || tag == EVENT_TAG_FOLDER_ADDED || tag
            == EVENT_TAG_FILE_CHANGED) ==> decoded_event(tag, Some(path)) == CameraEvent::Unknown,
{
}

/// Law: a poll that ends in the driver's timeout tag is a success carrying
/// `Timeout`, never an error.
pub proof fn lemma_timeout_is_success(status: i32, message: String, payload: Option<CameraFilePath>)
    requires
        status >= 0,
    ensures
        wait_event_outcome_spec(status, message, EVENT_TAG_TIMEOUT, payload) == Ok::<
            CameraEvent,
            Error,
        >(CameraEvent::Timeout),
{
}

/// Law: a whole-tree write with a non-window root always fails with
/// `TypeMismatch`.
pub proof fn lemma_non_window_root_rejected(w: Widget)
    requires
        w.kind != WidgetType::Window,
    ensures
        window_root_check(w) == Err::<(), Error>(Error::TypeMismatch),
{
}

} // verus!
