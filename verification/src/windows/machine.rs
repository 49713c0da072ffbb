//! The life cycle of a port as a mathematical state machine.
//!
//! A port is closed or open. An operation on it is finished at once, or it
//! leaves the port pending on one request to the host; the reply to that
//! request finishes the operation or leads to the next request. This module
//! says, for every state and every reply, what comes next.

use vstd::prelude::*;
use crate::builder::Configuration;
use crate::config::{DataBits, FlowControl, Parity, StopBits};
use crate::error::Error;
use crate::windows::dcb::{CommTimeouts, WindowsDCB};
use crate::windows::device_path;
use crate::windows::host::{Command, Handle, Reply, RequestView, DUPLICATE_SAME_ACCESS};

verus! {

/// What the operating system last accepted from a port: the device-control
/// block it committed and the time limits it set.
pub struct Applied {
    /// The committed device-control block.
    pub state: WindowsDCB,
    /// The time limits of reads and writes.
    pub timeouts: CommTimeouts,
}

/// A port at rest: the handle it owns, if it is open, its configuration, and
/// what it last applied to the device.
pub struct PortState {
    /// The handle of the open device; `None` when the port is closed.
    pub handle: Option<Handle>,
    /// The configuration: what the next application to the device writes.
    pub configuration: Configuration,
    /// What the device was last configured with; `None` when the port is
    /// closed.
    pub applied: Option<Applied>,
}

/// An operation that takes one request and leaves the port as it is.
#[derive(Debug, Clone, Copy, PartialEq, Eq, Structural)]
pub enum Query {
    /// A second handle to the device, for a clone of the port.
    Duplicate,
    /// The baud rate that the device runs at.
    BaudRate,
    /// The data bits that the device runs with.
    DataBits,
    /// The flow control that the device runs with.
    FlowControl,
    /// The parity that the device runs with.
    Parity,
    /// The stop bits that the device runs with.
    StopBits,
    /// The number of bytes that wait to be read.
    BytesToRead,
    /// The number of bytes that wait to be transmitted.
    BytesToWrite,
    /// Buffers are discarded.
    Clear,
    /// Bytes are read.
    Read,
    /// Bytes are written.
    Write,
    /// Written bytes are pushed out.
    Flush,
}

/// How far an operation has come: which request is out.
pub enum StageView {
    /// The device is being opened.
    Acquiring,
    /// The device-control block of `handle` is being read, to be updated.
    Fetching {
        /// The handle that the configuration is applied to.
        handle: Handle,
    },
    /// The updated block `state` is being committed.
    Committing {
        /// The handle that the configuration is applied to.
        handle: Handle,
        /// The block sent to the device.
        state: WindowsDCB,
    },
    /// The time limits are being set, after `state` was committed.
    Timing {
        /// The handle that the configuration is applied to.
        handle: Handle,
        /// The block that the device accepted.
        state: WindowsDCB,
    },
    /// The handle is being released because applying the configuration
    /// failed with `error`.
    Abandoning {
        /// Why the configuration could not be applied.
        error: Error,
    },
    /// The handle is being released because the port is closed.
    Releasing,
    /// The handle is being released because the port moves to `path`.
    Reopening {
        /// The device path to open next.
        path: Seq<char>,
    },
    /// A request is out that leaves the port as it is.
    Asking {
        /// What was asked.
        query: Query,
    },
}

/// A port in the middle of an operation.
pub struct PendingState {
    /// The port as it returns if the operation changes nothing more.
    pub port: PortState,
    /// Which request is out.
    pub stage: StageView,
}

/// What a finished operation hands to the caller.
pub enum OutputView {
    /// Nothing: the operation only had an effect.
    Unit,
    /// A second port on the same device.
    Port(PortState),
    /// The baud rate read from the device.
    BaudRate(u32),
    /// The data bits read from the device.
    DataBits(DataBits),
    /// The flow control read from the device.
    FlowControl(FlowControl),
    /// The parity read from the device.
    Parity(Parity),
    /// The stop bits read from the device.
    StopBits(StopBits),
    /// A number of bytes that wait in a buffer.
    Queued(u32),
    /// A number of bytes read or written.
    Transferred(usize),
}

/// What an operation has come to.
pub enum StepView {
    /// The operation is over: the port at rest, and the result.
    Done(PortState, Result<OutputView, Error>),
    /// The host has to perform the request and resume the pending port with
    /// the reply.
    Perform(PendingState, RequestView),
}

impl Applied {
    /// Whether this is what applying `configuration` leaves on a device: a
    /// block that reads back as the configuration's line-control values, and
    /// the time limits of its timeout.
    pub open spec fn matches(self, configuration: Configuration) -> bool {
        &&& self.state.carries(configuration)
        &&& self.timeouts == CommTimeouts::of(configuration.timeout)
    }
}

impl PortState {
    /// The closed port with the given configuration.
    pub open spec fn closed(configuration: Configuration) -> PortState {
        PortState { handle: None, configuration, applied: None }
    }

    /// Whether the port is open.
    pub open spec fn is_open(self) -> bool {
        self.handle is Some
    }

    /// What holds of every port at rest. A closed port owns no handle and has
    /// applied nothing. An open port owns a handle, is bound to a device, and
    /// the device was configured with the port's current configuration.
    pub open spec fn wf(self) -> bool {
        match self.handle {
            None => self.applied is None,
            Some(_) => {
                &&& self.configuration.is_bound()
                &&& self.applied matches Some(applied)
                &&& applied.matches(self.configuration)
            },
        }
    }

    /// The first step of applying the configuration to the device behind
    /// `handle`: its device-control block is read.
    pub open spec fn apply(self, handle: Handle) -> StepView {
        StepView::Perform(
            PendingState { port: self, stage: StageView::Fetching { handle } },
            RequestView::Device { handle, command: Command::GetCommState },
        )
    }

    /// Giving up on applying the configuration to the device behind `handle`:
    /// the handle is released, and the port will be closed whatever the reply.
    pub open spec fn abandon(self, handle: Handle, error: Error) -> StepView {
        StepView::Perform(
            PendingState { port: self, stage: StageView::Abandoning { error } },
            RequestView::Device { handle, command: Command::CloseHandle },
        )
    }

    /// Opening the port. With no device path it fails with `InvalidInput`, on
    /// an open port with `AlreadyExists`, and the port stays as it is. Else
    /// the device is opened under its path in the device namespace.
    pub open spec fn open(self) -> StepView {
        if !self.configuration.is_bound() {
            StepView::Done(self, Err(Error::InvalidInput))
        } else if self.is_open() {
            StepView::Done(self, Err(Error::AlreadyExists))
        } else {
            StepView::Perform(
                PendingState { port: self, stage: StageView::Acquiring },
                RequestView::open_device(device_path(self.configuration.path)),
            )
        }
    }

    /// Making a port from a configuration: it starts closed, and is opened at
    /// once if the configuration names a device.
    pub open spec fn create(configuration: Configuration) -> StepView {
        if configuration.is_bound() {
            PortState::closed(configuration).open()
        } else {
            StepView::Done(PortState::closed(configuration), Ok(OutputView::Unit))
        }
    }

    /// Closing the port. On a closed port there is nothing to do; on an open
    /// one the handle is released.
    pub open spec fn close(self) -> StepView {
        match self.handle {
            None => StepView::Done(self, Ok(OutputView::Unit)),
            Some(handle) => StepView::Perform(
                PendingState { port: self, stage: StageView::Releasing },
                RequestView::Device { handle, command: Command::CloseHandle },
            ),
        }
    }

    /// Replacing the line-control values or the timeout. The port takes the
    /// new configuration at once; if it is open, the whole configuration is
    /// applied to the device again.
    pub open spec fn configure(self, configuration: Configuration) -> StepView {
        let port = PortState { configuration, ..self };
        match self.handle {
            None => StepView::Done(port, Ok(OutputView::Unit)),
            Some(handle) => port.apply(handle),
        }
    }

    /// Moving the port to another device path. A closed port only takes the
    /// path. An open port is closed first, takes the path when the handle is
    /// released, and is opened again.
    pub open spec fn set_path(self, path: Seq<char>) -> StepView {
        match self.handle {
            None => StepView::Done(
                PortState { configuration: Configuration { path, ..self.configuration }, ..self },
                Ok(OutputView::Unit),
            ),
            Some(handle) => StepView::Perform(
                PendingState { port: self, stage: StageView::Reopening { path } },
                RequestView::Device { handle, command: Command::CloseHandle },
            ),
        }
    }

    /// Asking the device something that leaves the port as it is. A closed
    /// port has no device to ask: `NotConnected`.
    pub open spec fn ask(self, query: Query, command: Command) -> StepView {
        match self.handle {
            None => StepView::Done(self, Err(Error::NotConnected)),
            Some(handle) => StepView::Perform(
                PendingState { port: self, stage: StageView::Asking { query } },
                RequestView::Device { handle, command },
            ),
        }
    }

    /// Cloning the port. A closed port is copied as it is. For an open port
    /// the handle is duplicated, so that the clone owns a handle of its own.
    pub open spec fn try_clone(self) -> StepView {
        match self.handle {
            None => StepView::Done(self, Ok(OutputView::Port(self))),
            Some(_) => self.ask(
                Query::Duplicate,
                Command::DuplicateHandle { options: DUPLICATE_SAME_ACCESS },
            ),
        }
    }

    /// What a query gives for a reply. A reply of the wrong kind is a failure;
    /// a read that transferred nothing is `TimedOut`.
    pub open spec fn answer(self, query: Query, reply: Reply) -> Result<OutputView, Error> {
        match (query, reply) {
            (Query::Duplicate, Reply::Handle(handle)) => Ok(
                OutputView::Port(PortState { handle: Some(handle), ..self }),
            ),
            (Query::BaudRate, Reply::State(state)) => Ok(OutputView::BaudRate(state.baud_rate)),
            (Query::DataBits, Reply::State(state)) => match state.decode_data_bits() {
                Ok(data_bits) => Ok(OutputView::DataBits(data_bits)),
                Err(error) => Err(error),
            },
            (Query::FlowControl, Reply::State(state)) => Ok(
                OutputView::FlowControl(state.decode_flow_control()),
            ),
            (Query::Parity, Reply::State(state)) => match state.decode_parity() {
                Ok(parity) => Ok(OutputView::Parity(parity)),
                Err(error) => Err(error),
            },
            (Query::StopBits, Reply::State(state)) => match state.decode_stop_bits() {
                Ok(stop_bits) => Ok(OutputView::StopBits(stop_bits)),
                Err(error) => Err(error),
            },
            (Query::BytesToRead, Reply::Queues { input, output }) => Ok(OutputView::Queued(input)),
            (Query::BytesToWrite, Reply::Queues { input, output }) => Ok(
                OutputView::Queued(output),
            ),
            (Query::Clear, Reply::Completed) => Ok(OutputView::Unit),
            (Query::Read, Reply::Transferred(count)) => if count == 0 {
                Err(Error::TimedOut)
            } else {
                Ok(OutputView::Transferred(count as usize))
            },
            (Query::Write, Reply::Transferred(count)) => Ok(
                OutputView::Transferred(count as usize),
            ),
            (Query::Flush, Reply::Completed) => Ok(OutputView::Unit),
            _ => Err(reply.failure()),
        }
    }
}

impl PendingState {
    /// What holds of every pending port. While a configuration is applied the
    /// port is bound to a device and owns no other handle than the one in
    /// work, and a block that was sent carries the configuration. Any other
    /// request is out on behalf of an open port at rest.
    pub open spec fn wf(self) -> bool {
        match self.stage {
            StageView::Acquiring => self.port.wf() && !self.port.is_open()
                && self.port.configuration.is_bound(),
            StageView::Fetching { handle } => self.applies_to(handle),
            StageView::Committing { handle, state } => self.applies_to(handle) && state.carries(
                self.port.configuration,
            ),
            StageView::Timing { handle, state } => self.applies_to(handle) && state.carries(
                self.port.configuration,
            ),
            StageView::Abandoning { error } => true,
            StageView::Releasing => self.port.wf() && self.port.is_open(),
            StageView::Reopening { path } => self.port.wf() && self.port.is_open(),
            StageView::Asking { query } => self.port.wf() && self.port.is_open(),
        }
    }

    /// Whether the configuration is being applied to `handle`: the port is
    /// bound, and owns that handle or none yet.
    pub open spec fn applies_to(self, handle: Handle) -> bool {
        &&& self.port.configuration.is_bound()
        &&& (self.port.handle is None || self.port.handle == Some(handle))
    }

    /// Whether the pending port holds the handle: as the port's own, or as
    /// the one that a configuration is being applied to.
    pub open spec fn holds(self, handle: Handle) -> bool {
        ||| self.port.handle == Some(handle)
        ||| self.stage == (StageView::Fetching { handle })
        ||| (self.stage matches StageView::Committing { handle: device, state } && device
            == handle)
        ||| (self.stage matches StageView::Timing { handle: device, state } && device == handle)
    }

    /// Whether the request that is out asks the host to release a handle.
    pub open spec fn is_releasing(self) -> bool {
        ||| self.stage is Abandoning
        ||| self.stage is Releasing
        ||| self.stage is Reopening
    }

    /// What a reply leads to.
    ///
    /// Opening: the handle that was opened gets the configuration applied; a
    /// failure leaves the port closed. Applying a configuration reads the
    /// device-control block, commits the updated block and sets the time
    /// limits; only then is the port open. A failure on the way releases the
    /// handle, leaves the port closed and surfaces as the result. Closing: the
    /// port is closed once the handle is released; a failure leaves it open.
    /// Moving to another path: once the handle is released the port takes the
    /// path and is opened again; a failure to release leaves it as it was.
    pub open spec fn resume(self, reply: Reply) -> StepView {
        let configuration = self.port.configuration;
        match self.stage {
            StageView::Acquiring => match reply {
                Reply::Handle(handle) => self.port.apply(handle),
                _ => StepView::Done(self.port, Err(reply.failure())),
            },
            StageView::Fetching { handle } => match reply {
                Reply::State(state) => {
                    let next = state.updated(configuration);
                    StepView::Perform(
                        PendingState {
                            port: self.port,
                            stage: StageView::Committing { handle, state: next },
                        },
                        RequestView::Device {
                            handle,
                            command: Command::SetCommState { state: next },
                        },
                    )
                },
                _ => self.port.abandon(handle, reply.failure()),
            },
            StageView::Committing { handle, state } => match reply {
                Reply::Completed => StepView::Perform(
                    PendingState { port: self.port, stage: StageView::Timing { handle, state } },
                    RequestView::Device {
                        handle,
                        command: Command::SetCommTimeouts {
                            timeouts: CommTimeouts::of(configuration.timeout),
                        },
                    },
                ),
                _ => self.port.abandon(handle, reply.failure()),
            },
            StageView::Timing { handle, state } => match reply {
                Reply::Completed => StepView::Done(
                    PortState {
                        handle: Some(handle),
                        configuration,
                        applied: Some(
                            Applied { state, timeouts: CommTimeouts::of(configuration.timeout) },
                        ),
                    },
                    Ok(OutputView::Unit),
                ),
                _ => self.port.abandon(handle, reply.failure()),
            },
            StageView::Abandoning { error } => StepView::Done(
                PortState::closed(configuration),
                Err(error),
            ),
            StageView::Releasing => match reply {
                Reply::Completed => StepView::Done(
                    PortState::closed(configuration),
                    Ok(OutputView::Unit),
                ),
                _ => StepView::Done(self.port, Err(reply.failure())),
            },
            StageView::Reopening { path } => match reply {
                Reply::Completed => PortState::closed(
                    Configuration { path, ..configuration },
                ).open(),
                _ => StepView::Done(self.port, Err(reply.failure())),
            },
            StageView::Asking { query } => StepView::Done(
                self.port,
                self.port.answer(query, reply),
            ),
        }
    }
}

impl OutputView {
    /// What holds of every output: a port that is handed out is well formed.
    pub open spec fn wf(self) -> bool {
        match self {
            OutputView::Port(port) => port.wf(),
            _ => true,
        }
    }
}

impl StepView {
    /// The step after the host has answered: a pending port is resumed with
    /// the reply, a finished operation stays as it is.
    pub open spec fn given(self, reply: Reply) -> StepView {
        match self {
            StepView::Done(port, result) => self,
            StepView::Perform(pending, request) => pending.resume(reply),
        }
    }

    /// The step after the host has answered request after request with
    /// `replies`, in order, for as long as the operation is not over.
    pub open spec fn run(self, replies: Seq<Reply>) -> StepView
        decreases replies.len(),
    {
        if replies.len() == 0 {
            self
        } else {
            self.given(replies[0]).run(replies.drop_first())
        }
    }

    /// Whether the step holds the handle: as the handle of the port at rest or
    /// of a clone handed out, or in a pending port.
    pub open spec fn holds(self, handle: Handle) -> bool {
        match self {
            StepView::Done(port, result) => port.handle == Some(handle) || (
            result matches Ok(OutputView::Port(clone)) && clone.handle == Some(handle)),
            StepView::Perform(pending, request) => pending.holds(handle),
        }
    }

    /// Whether the step asks the host to release the handle.
    pub open spec fn releases(self, handle: Handle) -> bool {
        self matches StepView::Perform(pending, request) && request == (RequestView::Device {
            handle,
            command: Command::CloseHandle,
        })
    }

    /// What holds of every step: the port in it, at rest or pending, is well
    /// formed, and so is a port in the result.
    pub open spec fn wf(self) -> bool {
        match self {
            StepView::Done(port, result) => port.wf() && (result matches Ok(output)
                ==> output.wf()),
            StepView::Perform(pending, request) => pending.wf(),
        }
    }
}

} // verus!
