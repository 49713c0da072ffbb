//! What passes between a port and its host: the port asks for one piece of
//! work on the operating system, the host does it and hands back what came of
//! it.

use vstd::prelude::*;
use crate::error::Error;
use crate::windows::dcb::{CommTimeouts, WindowsDCB};

verus! {

/// Access right: the device is opened for reading.
pub const GENERIC_READ: u32 = 0x8000_0000;

/// Access right: the device is opened for writing.
pub const GENERIC_WRITE: u32 = 0x4000_0000;

/// Creation disposition: open the device only if it exists.
pub const OPEN_EXISTING: u32 = 3;

/// File attribute: none set.
pub const FILE_ATTRIBUTE_NORMAL: u32 = 0x0000_0080;

/// Duplication option: the copy has the access rights of the source.
pub const DUPLICATE_SAME_ACCESS: u32 = 0x0000_0002;

/// The raw value that the operating system gives in place of a handle when it
/// has none to give.
pub const INVALID_HANDLE_VALUE: usize = usize::MAX;

/// A device handle of the operating system. It is never the invalid handle:
/// a port that holds a handle holds one that the system gave as valid.
#[derive(Debug, Clone, Copy, PartialEq, Eq, Structural)]
pub struct Handle {
    raw: usize,
}

impl Handle {
    /// The raw value of the handle.
    pub closed spec fn value(self) -> usize {
        self.raw
    }

    /// A handle is not the invalid handle.
    #[verifier::type_invariant]
    spec fn valid(self) -> bool {
        self.raw != INVALID_HANDLE_VALUE
    }

    /// Takes a raw value from the operating system as a handle, unless it is
    /// the invalid handle.
    pub fn from_raw(raw: usize) -> (r: Option<Handle>)
        ensures
            r is Some <==> raw != INVALID_HANDLE_VALUE,
            r matches Some(handle) ==> handle.value() == raw,
    {
        if raw == INVALID_HANDLE_VALUE {
            None
        } else {
            Some(Handle { raw })
        }
    }

    /// Two handles with the same raw value are the same handle.
    pub proof fn lemma_value_identifies(self, other: Handle)
        ensures
            self.value() == other.value() ==> self == other,
    {
    }

    /// The raw value of the handle, for the operating system.
    pub fn raw(&self) -> (r: usize)
        ensures
            r == self.value(),
            r != INVALID_HANDLE_VALUE,
    {
        proof {
            use_type_invariant(self);
        }
        self.raw
    }
}

/// Reads the outcome of an operating-system call that answers with a handle:
/// the invalid handle means that the call failed, and then `last_error`, the
/// error that the system recorded for it, is the failure.
pub fn handle_result(raw: usize, last_error: Error) -> (r: Result<Handle, Error>)
    ensures
        raw == INVALID_HANDLE_VALUE ==> r == Err::<Handle, Error>(last_error),
        raw != INVALID_HANDLE_VALUE ==> (r matches Ok(handle) && handle.value() == raw),
{
    match Handle::from_raw(raw) {
        Some(handle) => Ok(handle),
        None => Err(last_error),
    }
}

/// One piece of work on an open device.
#[derive(Debug, Clone, Copy, PartialEq, Eq, Structural)]
pub enum Command {
    /// Read the device-control block; answered by [`Reply::State`].
    GetCommState,
    /// Commit a device-control block; answered by [`Reply::Completed`].
    SetCommState {
        /// The block to commit.
        state: WindowsDCB,
    },
    /// Set the time limits of reads and writes; answered by
    /// [`Reply::Completed`].
    SetCommTimeouts {
        /// The limits to set.
        timeouts: CommTimeouts,
    },
    /// Release the handle; answered by [`Reply::Completed`].
    CloseHandle,
    /// Make a second handle to the same device; answered by [`Reply::Handle`].
    DuplicateHandle {
        /// The duplication options.
        options: u32,
    },
    /// Report how many bytes wait in the buffers; answered by
    /// [`Reply::Queues`].
    ClearCommError,
    /// Discard buffered bytes and abort transfers; answered by
    /// [`Reply::Completed`].
    PurgeComm {
        /// What to discard and abort.
        flags: u32,
    },
    /// Read into the caller's buffer; answered by [`Reply::Transferred`].
    ReadFile {
        /// The most bytes to read.
        len: u32,
    },
    /// Write from the caller's buffer; answered by [`Reply::Transferred`].
    WriteFile {
        /// The most bytes to write.
        len: u32,
    },
    /// Wait until what was written has left the buffers; answered by
    /// [`Reply::Completed`].
    FlushFileBuffers,
}

/// What a port asks its host to do.
#[derive(Debug, Clone, PartialEq, Eq)]
pub enum Request {
    /// Open the device at `path`; answered by [`Reply::Handle`].
    CreateFile {
        /// The device's path in the device namespace.
        path: String,
        /// The access rights asked for.
        access: u32,
        /// With whom the device is shared.
        share_mode: u32,
        /// What to do if the device exists or not.
        disposition: u32,
        /// The file attributes and flags.
        attributes: u32,
    },
    /// Carry out a command on an open device.
    Device {
        /// The device's handle.
        handle: Handle,
        /// What to do with it.
        command: Command,
    },
}

/// A [`Request`] as a mathematical value, with the path as a sequence of
/// characters.
pub enum RequestView {
    /// Open the device at `path`.
    CreateFile {
        /// The device's path in the device namespace.
        path: Seq<char>,
        /// The access rights asked for.
        access: u32,
        /// With whom the device is shared.
        share_mode: u32,
        /// What to do if the device exists or not.
        disposition: u32,
        /// The file attributes and flags.
        attributes: u32,
    },
    /// Carry out a command on an open device.
    Device {
        /// The device's handle.
        handle: Handle,
        /// What to do with it.
        command: Command,
    },
}

impl RequestView {
    /// The request that opens the device at `path` for reading and writing,
    /// shared with nobody, and only if it exists.
    pub open spec fn open_device(path: Seq<char>) -> RequestView {
        RequestView::CreateFile {
            path,
            access: GENERIC_READ | GENERIC_WRITE,
            share_mode: 0,
            disposition: OPEN_EXISTING,
            attributes: FILE_ATTRIBUTE_NORMAL,
        }
    }
}

impl View for Request {
    type V = RequestView;

    open spec fn view(&self) -> RequestView {
        match *self {
            Request::CreateFile { path, access, share_mode, disposition, attributes } => {
                RequestView::CreateFile { path: path@, access, share_mode, disposition, attributes }
            },
            Request::Device { handle, command } => RequestView::Device { handle, command },
        }
    }
}

/// What came of a request.
#[derive(Debug, Clone, Copy, PartialEq, Eq, Structural)]
pub enum Reply {
    /// The operating system refused or failed.
    Failed(Error),
    /// The work is done and there is nothing to report.
    Completed,
    /// The handle that was opened or duplicated.
    Handle(Handle),
    /// The device-control block that was read.
    State(WindowsDCB),
    /// The number of bytes that were read or written.
    Transferred(u32),
    /// The number of bytes that wait in the buffers.
    Queues {
        /// Bytes received and not yet read.
        input: u32,
        /// Bytes written and not yet transmitted.
        output: u32,
    },
}

/// Reads the outcome of an operating-system call that answers with a truth
/// value: zero means that the call failed, and then `last_error`, the error
/// that the system recorded for it, is the failure.
pub fn winapi_result(result: i32, last_error: Error) -> (r: Result<(), Error>)
    ensures
        r == if result == 0 {
            Err::<(), Error>(last_error)
        } else {
            Ok::<(), Error>(())
        },
{
    match result {
        0 => Err(last_error),
        _ => Ok(()),
    }
}

impl Reply {
    /// The failure that a reply stands for where a reply of another shape was
    /// due: the operating system's own error if it reported one, and
    /// `InvalidData` for an answer of the wrong kind.
    pub open spec fn failure(self) -> Error {
        match self {
            Reply::Failed(error) => error,
            _ => Error::InvalidData,
        }
    }

    /// Computes [`Reply::failure`].
    pub fn to_failure(&self) -> (r: Error)
        ensures
            r == self.failure(),
    {
        match *self {
            Reply::Failed(error) => error,
            _ => Error::InvalidData,
        }
    }
}

} // verus!
