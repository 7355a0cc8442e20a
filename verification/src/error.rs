//! Error taxonomy.
//!
//! Failures carry a kind from a closed set plus a free-text message, most
//! often the OS error description captured right after the failing call.
//! The `Unknown` kind absorbs any kind name that this version of the
//! taxonomy does not recognize, so that inventories written by a newer
//! version still read back without a parse failure.

use vstd::prelude::*;

use crate::text::str_eq;

verus! {

/// Category of a failure.
#[derive(Clone, Debug, Hash, PartialEq, Eq)]
pub enum ErrorKind {
    /// Memory allocation failed.
    AllocMemoryFailed,
    /// Failed to get the device list.
    IBGetDeviceListFail,
    /// No device found.
    IBDeviceNotFound,
    /// Failed to open a device.
    IBOpenDeviceFail,
    /// Failed to query device attributes.
    IBQueryDeviceFail,
    /// Failed to query a global identifier (GID).
    IBQueryGidFail,
    /// Failed to query a GID's type.
    IBQueryGidTypeFail,
    /// Failed to query port attributes.
    IBQueryPortFail,
    /// Failed to allocate a protection domain.
    IBAllocPDFail,
    /// Failed to create a completion channel.
    IBCreateCompChannelFail,
    /// Failed to set a completion channel to non-blocking mode.
    IBSetCompChannelNonBlockFail,
    /// Failed to get a completion queue event.
    IBGetCompQueueEventFail,
    /// Failed to create a completion queue.
    IBCreateCompQueueFail,
    /// Failed to request notification on a completion queue.
    IBReqNotifyCompQueueFail,
    /// Failed to poll a completion queue.
    IBPollCompQueueFail,
    /// Failed to register a memory region.
    IBRegMemoryRegionFail,
    /// Failed to create a queue pair.
    IBCreateQueuePairFail,
    /// Failed to modify queue pair state.
    IBModifyQueuePairFail,
    /// Failed to post a receive work request.
    IBPostRecvFailed,
    /// Failed to post a send work request.
    IBPostSendFailed,
    /// Failed to set non-blocking mode.
    IBSetNonBlockFailed,
    /// Buffer size insufficient for the operation.
    InsufficientBuffer,
    /// Unrecognized kind, preserved by its name.
    Unknown(String),
}

/// Mathematical model of a failure category; the unknown case carries the
/// preserved name as characters. Its variants mirror those of
/// [`ErrorKind`].
#[allow(missing_docs)]
pub enum ErrorKindV {
    AllocMemoryFailed,
    IBGetDeviceListFail,
    IBDeviceNotFound,
    IBOpenDeviceFail,
    IBQueryDeviceFail,
    IBQueryGidFail,
    IBQueryGidTypeFail,
    IBQueryPortFail,
    IBAllocPDFail,
    IBCreateCompChannelFail,
    IBSetCompChannelNonBlockFail,
    IBGetCompQueueEventFail,
    IBCreateCompQueueFail,
    IBReqNotifyCompQueueFail,
    IBPollCompQueueFail,
    IBRegMemoryRegionFail,
    IBCreateQueuePairFail,
    IBModifyQueuePairFail,
    IBPostRecvFailed,
    IBPostSendFailed,
    IBSetNonBlockFailed,
    InsufficientBuffer,
    Unknown(Seq<char>),
}

impl DeepView for ErrorKind {
    type V = ErrorKindV;

    open spec fn deep_view(&self) -> ErrorKindV {
        match self {
            ErrorKind::AllocMemoryFailed => ErrorKindV::AllocMemoryFailed,
            ErrorKind::IBGetDeviceListFail => ErrorKindV::IBGetDeviceListFail,
            ErrorKind::IBDeviceNotFound => ErrorKindV::IBDeviceNotFound,
            ErrorKind::IBOpenDeviceFail => ErrorKindV::IBOpenDeviceFail,
            ErrorKind::IBQueryDeviceFail => ErrorKindV::IBQueryDeviceFail,
            ErrorKind::IBQueryGidFail => ErrorKindV::IBQueryGidFail,
            ErrorKind::IBQueryGidTypeFail => ErrorKindV::IBQueryGidTypeFail,
            ErrorKind::IBQueryPortFail => ErrorKindV::IBQueryPortFail,
            ErrorKind::IBAllocPDFail => ErrorKindV::IBAllocPDFail,
            ErrorKind::IBCreateCompChannelFail => ErrorKindV::IBCreateCompChannelFail,
            ErrorKind::IBSetCompChannelNonBlockFail => ErrorKindV::IBSetCompChannelNonBlockFail,
            ErrorKind::IBGetCompQueueEventFail => ErrorKindV::IBGetCompQueueEventFail,
            ErrorKind::IBCreateCompQueueFail => ErrorKindV::IBCreateCompQueueFail,
            ErrorKind::IBReqNotifyCompQueueFail => ErrorKindV::IBReqNotifyCompQueueFail,
            ErrorKind::IBPollCompQueueFail => ErrorKindV::IBPollCompQueueFail,
            ErrorKind::IBRegMemoryRegionFail => ErrorKindV::IBRegMemoryRegionFail,
            ErrorKind::IBCreateQueuePairFail => ErrorKindV::IBCreateQueuePairFail,
            ErrorKind::IBModifyQueuePairFail => ErrorKindV::IBModifyQueuePairFail,
            ErrorKind::IBPostRecvFailed => ErrorKindV::IBPostRecvFailed,
            ErrorKind::IBPostSendFailed => ErrorKindV::IBPostSendFailed,
            ErrorKind::IBSetNonBlockFailed => ErrorKindV::IBSetNonBlockFailed,
            ErrorKind::InsufficientBuffer => ErrorKindV::InsufficientBuffer,
            ErrorKind::Unknown(s) => ErrorKindV::Unknown(s@),
        }
    }
}

/// The name of a failure category; an unknown category's name is the
/// preserved text itself.
pub open spec fn kind_name(k: ErrorKindV) -> Seq<char> {
    match k {
        ErrorKindV::AllocMemoryFailed => "AllocMemoryFailed"@,
        ErrorKindV::IBGetDeviceListFail => "IBGetDeviceListFail"@,
        ErrorKindV::IBDeviceNotFound => "IBDeviceNotFound"@,
        ErrorKindV::IBOpenDeviceFail => "IBOpenDeviceFail"@,
        ErrorKindV::IBQueryDeviceFail => "IBQueryDeviceFail"@,
        ErrorKindV::IBQueryGidFail => "IBQueryGidFail"@,
        ErrorKindV::IBQueryGidTypeFail => "IBQueryGidTypeFail"@,
        ErrorKindV::IBQueryPortFail => "IBQueryPortFail"@,
        ErrorKindV::IBAllocPDFail => "IBAllocPDFail"@,
        ErrorKindV::IBCreateCompChannelFail => "IBCreateCompChannelFail"@,
        ErrorKindV::IBSetCompChannelNonBlockFail => "IBSetCompChannelNonBlockFail"@,
        ErrorKindV::IBGetCompQueueEventFail => "IBGetCompQueueEventFail"@,
        ErrorKindV::IBCreateCompQueueFail => "IBCreateCompQueueFail"@,
        ErrorKindV::IBReqNotifyCompQueueFail => "IBReqNotifyCompQueueFail"@,
        ErrorKindV::IBPollCompQueueFail => "IBPollCompQueueFail"@,
        ErrorKindV::IBRegMemoryRegionFail => "IBRegMemoryRegionFail"@,
        ErrorKindV::IBCreateQueuePairFail => "IBCreateQueuePairFail"@,
        ErrorKindV::IBModifyQueuePairFail => "IBModifyQueuePairFail"@,
        ErrorKindV::IBPostRecvFailed => "IBPostRecvFailed"@,
        ErrorKindV::IBPostSendFailed => "IBPostSendFailed"@,
        ErrorKindV::IBSetNonBlockFailed => "IBSetNonBlockFailed"@,
        ErrorKindV::InsufficientBuffer => "InsufficientBuffer"@,
        ErrorKindV::Unknown(s) => s,
    }
}

/// The category denoted by a name: the matching known category, or the
/// name preserved as unknown. No name is ever a parse failure.
pub open spec fn kind_of_name(s: Seq<char>) -> ErrorKindV {
    if s == "AllocMemoryFailed"@ {
        ErrorKindV::AllocMemoryFailed
    } else if s == "IBGetDeviceListFail"@ {
        ErrorKindV::IBGetDeviceListFail
    } else if s == "IBDeviceNotFound"@ {
        ErrorKindV::IBDeviceNotFound
    } else if s == "IBOpenDeviceFail"@ {
        ErrorKindV::IBOpenDeviceFail
    } else if s == "IBQueryDeviceFail"@ {
        ErrorKindV::IBQueryDeviceFail
    } else if s == "IBQueryGidFail"@ {
        ErrorKindV::IBQueryGidFail
    } else if s == "IBQueryGidTypeFail"@ {
        ErrorKindV::IBQueryGidTypeFail
    } else if s == "IBQueryPortFail"@ {
        ErrorKindV::IBQueryPortFail
    } else if s == "IBAllocPDFail"@ {
        ErrorKindV::IBAllocPDFail
    } else if s == "IBCreateCompChannelFail"@ {
        ErrorKindV::IBCreateCompChannelFail
    } else if s == "IBSetCompChannelNonBlockFail"@ {
        ErrorKindV::IBSetCompChannelNonBlockFail
    } else if s == "IBGetCompQueueEventFail"@ {
        ErrorKindV::IBGetCompQueueEventFail
    } else if s == "IBCreateCompQueueFail"@ {
        ErrorKindV::IBCreateCompQueueFail
    } else if s == "IBReqNotifyCompQueueFail"@ {
        ErrorKindV::IBReqNotifyCompQueueFail
    } else if s == "IBPollCompQueueFail"@ {
        ErrorKindV::IBPollCompQueueFail
    } else if s == "IBRegMemoryRegionFail"@ {
        ErrorKindV::IBRegMemoryRegionFail
    } else if s == "IBCreateQueuePairFail"@ {
        ErrorKindV::IBCreateQueuePairFail
    } else if s == "IBModifyQueuePairFail"@ {
        ErrorKindV::IBModifyQueuePairFail
    } else if s == "IBPostRecvFailed"@ {
        ErrorKindV::IBPostRecvFailed
    } else if s == "IBPostSendFailed"@ {
        ErrorKindV::IBPostSendFailed
    } else if s == "IBSetNonBlockFailed"@ {
        ErrorKindV::IBSetNonBlockFailed
    } else if s == "InsufficientBuffer"@ {
        ErrorKindV::InsufficientBuffer
    } else {
        ErrorKindV::Unknown(s)
    }
}

/// Failure with its category and message.
#[derive(Clone, Debug, PartialEq, Eq)]
pub struct Error {
    /// The category of failure that occurred.
    pub kind: ErrorKind,
    /// Additional message providing context, often the OS error text.
    pub msg: String,
}

/// Mathematical model of a failure.
pub struct ErrorV {
    /// Model of the category.
    pub kind: ErrorKindV,
    /// The message characters.
    pub msg: Seq<char>,
}

impl DeepView for Error {
    type V = ErrorV;

    open spec fn deep_view(&self) -> ErrorV {
        ErrorV { kind: self.kind.deep_view(), msg: self.msg@ }
    }
}

/// A failure with the given category and no message.
pub open spec fn error_of_kind(k: ErrorKindV) -> ErrorV {
    ErrorV { kind: k, msg: Seq::<char>::empty() }
}

/// Relies on std::io::Error::last_os_error and its Display rendering: the
/// description of the calling thread's most recent OS error. The text
/// depends on ambient process state, so nothing is promised of it.
#[verifier::external_body]
fn last_os_error_text() -> String {
    std::io::Error::last_os_error().to_string()
}

impl ErrorKind {
    /// Creates an error of this kind whose message is the current OS error
    /// description.
    pub fn with_errno(self) -> (r: Error)
        ensures
            r.kind == self,
    {
        Error { kind: self, msg: last_os_error_text() }
    }

    /// Returns the name of this kind; an unknown kind's name is its
    /// preserved text.
    pub fn as_name(&self) -> (r: String)
        ensures
            r@ == kind_name(self.deep_view()),
    {
        match self {
            ErrorKind::AllocMemoryFailed => String::from_str("AllocMemoryFailed"),
            ErrorKind::IBGetDeviceListFail => String::from_str("IBGetDeviceListFail"),
            ErrorKind::IBDeviceNotFound => String::from_str("IBDeviceNotFound"),
            ErrorKind::IBOpenDeviceFail => String::from_str("IBOpenDeviceFail"),
            ErrorKind::IBQueryDeviceFail => String::from_str("IBQueryDeviceFail"),
            ErrorKind::IBQueryGidFail => String::from_str("IBQueryGidFail"),
            ErrorKind::IBQueryGidTypeFail => String::from_str("IBQueryGidTypeFail"),
            ErrorKind::IBQueryPortFail => String::from_str("IBQueryPortFail"),
            ErrorKind::IBAllocPDFail => String::from_str("IBAllocPDFail"),
            ErrorKind::IBCreateCompChannelFail => String::from_str("IBCreateCompChannelFail"),
            ErrorKind::IBSetCompChannelNonBlockFail => String::from_str(
                "IBSetCompChannelNonBlockFail",
            ),
            ErrorKind::IBGetCompQueueEventFail => String::from_str("IBGetCompQueueEventFail"),
            ErrorKind::IBCreateCompQueueFail => String::from_str("IBCreateCompQueueFail"),
            ErrorKind::IBReqNotifyCompQueueFail => String::from_str("IBReqNotifyCompQueueFail"),
            ErrorKind::IBPollCompQueueFail => String::from_str("IBPollCompQueueFail"),
            ErrorKind::IBRegMemoryRegionFail => String::from_str("IBRegMemoryRegionFail"),
            ErrorKind::IBCreateQueuePairFail => String::from_str("IBCreateQueuePairFail"),
            ErrorKind::IBModifyQueuePairFail => String::from_str("IBModifyQueuePairFail"),
            ErrorKind::IBPostRecvFailed => String::from_str("IBPostRecvFailed"),
            ErrorKind::IBPostSendFailed => String::from_str("IBPostSendFailed"),
            ErrorKind::IBSetNonBlockFailed => String::from_str("IBSetNonBlockFailed"),
            ErrorKind::InsufficientBuffer => String::from_str("InsufficientBuffer"),
            ErrorKind::Unknown(s) => s.clone(),
        }
    }

    /// Maps a kind name back to its category; a name this taxonomy does
    /// not recognize is preserved as `Unknown`, never rejected.
    pub fn from_name(s: &str) -> (r: ErrorKind)
        ensures
            r.deep_view() == kind_of_name(s@),
    {
        if str_eq(s, "AllocMemoryFailed") {
            ErrorKind::AllocMemoryFailed
        } else if str_eq(s, "IBGetDeviceListFail") {
            ErrorKind::IBGetDeviceListFail
        } else if str_eq(s, "IBDeviceNotFound") {
            ErrorKind::IBDeviceNotFound
        } else if str_eq(s, "IBOpenDeviceFail") {
            ErrorKind::IBOpenDeviceFail
        } else if str_eq(s, "IBQueryDeviceFail") {
            ErrorKind::IBQueryDeviceFail
        } else if str_eq(s, "IBQueryGidFail") {
            ErrorKind::IBQueryGidFail
        } else if str_eq(s, "IBQueryGidTypeFail") {
            ErrorKind::IBQueryGidTypeFail
        } else if str_eq(s, "IBQueryPortFail") {
            ErrorKind::IBQueryPortFail
        } else if str_eq(s, "IBAllocPDFail") {
            ErrorKind::IBAllocPDFail
        } else if str_eq(s, "IBCreateCompChannelFail") {
            ErrorKind::IBCreateCompChannelFail
        } else if str_eq(s, "IBSetCompChannelNonBlockFail") {
            ErrorKind::IBSetCompChannelNonBlockFail
        } else if str_eq(s, "IBGetCompQueueEventFail") {
            ErrorKind::IBGetCompQueueEventFail
        } else if str_eq(s, "IBCreateCompQueueFail") {
            ErrorKind::IBCreateCompQueueFail
        } else if str_eq(s, "IBReqNotifyCompQueueFail") {
            ErrorKind::IBReqNotifyCompQueueFail
        } else if str_eq(s, "IBPollCompQueueFail") {
            ErrorKind::IBPollCompQueueFail
        } else if str_eq(s, "IBRegMemoryRegionFail") {
            ErrorKind::IBRegMemoryRegionFail
        } else if str_eq(s, "IBCreateQueuePairFail") {
            ErrorKind::IBCreateQueuePairFail
        } else if str_eq(s, "IBModifyQueuePairFail") {
            ErrorKind::IBModifyQueuePairFail
        } else if str_eq(s, "IBPostRecvFailed") {
            ErrorKind::IBPostRecvFailed
        } else if str_eq(s, "IBPostSendFailed") {
            ErrorKind::IBPostSendFailed
        } else if str_eq(s, "IBSetNonBlockFailed") {
            ErrorKind::IBSetNonBlockFailed
        } else if str_eq(s, "InsufficientBuffer") {
            ErrorKind::InsufficientBuffer
        } else {
            ErrorKind::Unknown(s.to_owned())
        }
    }
}

/// The rendering of a kind in an error message: the kind's name, with an
/// unknown kind's preserved text put in quotes after the word `Unknown`.
pub open spec fn kind_message(k: ErrorKindV) -> Seq<char> {
    match k {
        ErrorKindV::Unknown(s) => "Unknown(\""@ + s + "\")"@,
        _ => kind_name(k),
    }
}

/// The full rendering of an error: the kind alone when the message is
/// empty, else the kind, a separating colon, and the message.
pub open spec fn error_text(e: ErrorV) -> Seq<char> {
    if e.msg.len() == 0 {
        kind_message(e.kind)
    } else {
        kind_message(e.kind) + ": "@ + e.msg
    }
}

impl Error {
    /// Creates an error with the given kind and message.
    pub fn new(kind: ErrorKind, msg: String) -> (r: Self)
        ensures
            r.kind == kind,
            r.msg == msg,
    {
        Self { kind, msg }
    }

    /// Creates an error of the given kind with an empty message.
    pub fn from_kind(kind: ErrorKind) -> (r: Self)
        ensures
            r.kind == kind,
            r.msg@ == Seq::<char>::empty(),
    {
        Self { kind, msg: String::new() }
    }

    /// Renders the error as the kind's name, followed by a colon and the
    /// message when one is present.
    pub fn to_text(&self) -> (r: String)
        ensures
            r@ == error_text(self.deep_view()),
    {
        let mut out: String = match &self.kind {
            ErrorKind::Unknown(s) => {
                let mut o = String::from_str("Unknown(\"");
                o.append(s.as_str());
                o.append("\")");
                o
            },
            _ => self.kind.as_name(),
        };
        if self.msg.as_str().unicode_len() != 0 {
            out.append(": ");
            out.append(self.msg.as_str());
        }
        out
    }
}

impl From<ErrorKind> for Error {
    /// An error of the given kind with an empty message.
    fn from(kind: ErrorKind) -> (r: Self)
        ensures
            r.kind == kind,
            r.msg@ == Seq::<char>::empty(),
    {
        Error::from_kind(kind)
    }
}

impl vstd::std_specs::convert::FromSpecImpl<ErrorKind> for Error {
    open spec fn obeys_from_spec() -> bool {
        false
    }

    open spec fn from_spec(v: ErrorKind) -> Error {
        choose|e: Error| e.kind == v
    }
}

} // verus!
