//! The COM port: a serial port that asks its host for every piece of work on
//! the operating system.

use vstd::prelude::*;
use crate::builder::{Configuration, SerialPortBuilder};
use crate::communication::Communication;
use crate::config::{ClearBuffer, DataBits, FlowControl, Parity, StopBits, Timeout};
use crate::error::Error;
use crate::windows::dcb::{
    lemma_update_round_trip, purge_flags, purge_flags_of, CommTimeouts, WindowsDCB,
};
use crate::windows::host::{
    Command, Handle, Reply, Request, DUPLICATE_SAME_ACCESS, FILE_ATTRIBUTE_NORMAL, GENERIC_READ,
    GENERIC_WRITE, OPEN_EXISTING,
};
use crate::windows::machine::{
    Applied, OutputView, PendingState, PortState, Query, StageView, StepView,
};
use crate::windows::prefix_port;

verus! {

/// A serial port at rest: closed, or open on a device that was configured
/// with the port's current configuration.
pub struct ComPort {
    handle: Option<Handle>,
    builder: SerialPortBuilder,
    applied: Ghost<Option<Applied>>,
}

/// Which request of an operation is out.
enum Stage {
    Acquiring,
    Fetching { handle: Handle },
    Committing { handle: Handle, state: Ghost<WindowsDCB> },
    Timing { handle: Handle, state: Ghost<WindowsDCB> },
    Abandoning { error: Error },
    Releasing,
    Reopening { path: String },
    Asking { query: Query },
}

/// A serial port in the middle of an operation: it waits for the reply to
/// the request that came with it.
pub struct Pending {
    handle: Option<Handle>,
    builder: SerialPortBuilder,
    applied: Ghost<Option<Applied>>,
    stage: Stage,
}

/// What a finished operation hands to the caller.
pub enum Output {
    /// Nothing: the operation only had an effect.
    Unit,
    /// A second port on the same device.
    Port(ComPort),
    /// The baud rate read from the device.
    BaudRate(u32),
    /// The data bits read from the device.
    DataBits(DataBits),
    /// The flow control read from the device.
    FlowControl(FlowControl),
    /// The parity read from the device.
    Parity(Parity),
    /// The stop bits read from the device.
    StopBits(StopBits),
    /// A number of bytes that wait in a buffer.
    Queued(u32),
    /// A number of bytes read or written.
    Transferred(usize),
}

/// What an operation on a port has come to.
#[must_use]
pub enum Step {
    /// The operation is over: the port at rest, and the result.
    Done(ComPort, Result<Output, Error>),
    /// The host has to perform the request and resume the pending port with
    /// the reply.
    Perform(Pending, Request),
}

impl View for ComPort {
    type V = PortState;

    closed spec fn view(&self) -> PortState {
        PortState { handle: self.handle, configuration: self.builder@, applied: self.applied@ }
    }
}

impl View for Stage {
    type V = StageView;

    closed spec fn view(&self) -> StageView {
        match *self {
            Stage::Acquiring => StageView::Acquiring,
            Stage::Fetching { handle } => StageView::Fetching { handle },
            Stage::Committing { handle, state } => StageView::Committing { handle, state: state@ },
            Stage::Timing { handle, state } => StageView::Timing { handle, state: state@ },
            Stage::Abandoning { error } => StageView::Abandoning { error },
            Stage::Releasing => StageView::Releasing,
            Stage::Reopening { path } => StageView::Reopening { path: path@ },
            Stage::Asking { query } => StageView::Asking { query },
        }
    }
}

impl View for Pending {
    type V = PendingState;

    closed spec fn view(&self) -> PendingState {
        PendingState {
            port: PortState {
                handle: self.handle,
                configuration: self.builder@,
                applied: self.applied@,
            },
            stage: self.stage@,
        }
    }
}

impl View for Output {
    type V = OutputView;

    open spec fn view(&self) -> OutputView {
        match *self {
            Output::Unit => OutputView::Unit,
            Output::Port(port) => OutputView::Port(port@),
            Output::BaudRate(baud_rate) => OutputView::BaudRate(baud_rate),
            Output::DataBits(data_bits) => OutputView::DataBits(data_bits),
            Output::FlowControl(flow_control) => OutputView::FlowControl(flow_control),
            Output::Parity(parity) => OutputView::Parity(parity),
            Output::StopBits(stop_bits) => OutputView::StopBits(stop_bits),
            Output::Queued(count) => OutputView::Queued(count),
            Output::Transferred(count) => OutputView::Transferred(count),
        }
    }
}

impl View for Step {
    type V = StepView;

    open spec fn view(&self) -> StepView {
        match *self {
            Step::Done(port, result) => StepView::Done(
                port@,
                match result {
                    Ok(output) => Ok(output@),
                    Err(error) => Err(error),
                },
            ),
            Step::Perform(pending, request) => StepView::Perform(pending@, request@),
        }
    }
}

impl ComPort {
    /// Every port at rest is well formed: closed without a handle, or open on
    /// a device that was configured with the current configuration.
    #[verifier::type_invariant]
    spec fn well_formed(&self) -> bool {
        self@.wf()
    }

    /// Makes a port from what a builder collected. The port starts closed; if
    /// the builder names a device, the port is opened at once.
    pub fn new(builder: SerialPortBuilder) -> (step: Step)
        ensures
            step@ == PortState::create(builder@),
            step@.wf(),
    {
        proof {
            builder.view_is_fields();
        }
        let bound = !builder.path.as_str().is_empty();
        let port = ComPort { handle: None, builder, applied: Ghost(None) };
        if bound {
            port.open()
        } else {
            Step::Done(port, Ok(Output::Unit))
        }
    }
}

impl Communication for ComPort {
    type Progress = Step;

    /// Whether the port is open.
    fn is_open(&self) -> (r: bool)
        ensures
            r == self@.is_open(),
    {
        self.handle.is_some()
    }

    /// Opens the port. Without a device path this fails with `InvalidInput`,
    /// on an open port with `AlreadyExists`; either way the port stays as it
    /// is. Else the host is asked to open the device.
    fn open(self) -> (step: Step)
        ensures
            step@ == self@.open(),
            step@.wf(),
    {
        proof {
            use_type_invariant(&self);
            self.builder.view_is_fields();
        }
        if self.builder.path.as_str().is_empty() {
            Step::Done(self, Err(Error::InvalidInput))
        } else if self.handle.is_some() {
            Step::Done(self, Err(Error::AlreadyExists))
        } else {
            let request = Request::CreateFile {
                path: prefix_port(self.builder.path.as_str()),
                access: GENERIC_READ | GENERIC_WRITE,
                share_mode: 0,
                disposition: OPEN_EXISTING,
                attributes: FILE_ATTRIBUTE_NORMAL,
            };
            let pending = Pending {
                handle: None,
                builder: self.builder,
                applied: Ghost(None),
                stage: Stage::Acquiring,
            };
            Step::Perform(pending, request)
        }
    }

    /// Closes the port. A closed port stays closed and the call succeeds; for
    /// an open port the host is asked to release the handle.
    fn close(self) -> (step: Step)
        ensures
            step@ == self@.close(),
            step@.wf(),
    {
        proof {
            use_type_invariant(&self);
        }
        match self.handle {
            None => Step::Done(self, Ok(Output::Unit)),
            Some(handle) => {
                let pending = Pending {
                    handle: self.handle,
                    builder: self.builder,
                    applied: self.applied,
                    stage: Stage::Releasing,
                };
                Step::Perform(pending, Request::Device { handle, command: Command::CloseHandle })
            },
        }
    }
}

impl ComPort {
    /// Clones the port. The clone holds a copy of the configuration and is
    /// open if and only if this port is. A closed port is copied on the spot;
    /// for an open port the host is asked to duplicate the handle, so that each
    /// of the two ports owns a handle of its own to the same device.
    pub fn try_clone_native(self) -> (step: Step)
        ensures
            step@ == self@.try_clone(),
            step@.wf(),
    {
        proof {
            use_type_invariant(&self);
        }
        match self.handle {
            None => {
                let copy = ComPort {
                    handle: None,
                    builder: self.builder.clone(),
                    applied: Ghost(None),
                };
                Step::Done(self, Ok(Output::Port(copy)))
            },
            Some(_) => self.ask(
                Query::Duplicate,
                Command::DuplicateHandle { options: DUPLICATE_SAME_ACCESS },
            ),
        }
    }

    /// The device path that the port is bound to; empty if it is bound to
    /// none.
    pub fn path(&self) -> (r: Option<String>)
        ensures
            r matches Some(path) && path@ == self@.configuration.path,
    {
        proof {
            self.builder.view_is_fields();
        }
        Some(self.builder.path.clone())
    }

    /// The timeout that the port holds for reads and writes.
    pub fn timeout(&self) -> (r: Timeout)
        ensures
            r == self@.configuration.timeout,
    {
        proof {
            self.builder.view_is_fields();
        }
        self.builder.timeout
    }

    /// Reads the baud rate that the device runs at.
    pub fn baud_rate(self) -> (step: Step)
        ensures
            step@ == self@.ask(Query::BaudRate, Command::GetCommState),
            step@.wf(),
    {
        self.ask(Query::BaudRate, Command::GetCommState)
    }

    /// Reads the data bits that the device runs with.
    pub fn data_bits(self) -> (step: Step)
        ensures
            step@ == self@.ask(Query::DataBits, Command::GetCommState),
            step@.wf(),
    {
        self.ask(Query::DataBits, Command::GetCommState)
    }

    /// Reads the flow control that the device runs with.
    pub fn flow_control(self) -> (step: Step)
        ensures
            step@ == self@.ask(Query::FlowControl, Command::GetCommState),
            step@.wf(),
    {
        self.ask(Query::FlowControl, Command::GetCommState)
    }

    /// Reads the parity that the device runs with.
    pub fn parity(self) -> (step: Step)
        ensures
            step@ == self@.ask(Query::Parity, Command::GetCommState),
            step@.wf(),
    {
        self.ask(Query::Parity, Command::GetCommState)
    }

    /// Reads the stop bits that the device runs with.
    pub fn stop_bits(self) -> (step: Step)
        ensures
            step@ == self@.ask(Query::StopBits, Command::GetCommState),
            step@.wf(),
    {
        self.ask(Query::StopBits, Command::GetCommState)
    }

    /// Asks how many bytes were received and wait to be read. Nothing is
    /// consumed.
    pub fn bytes_to_read(self) -> (step: Step)
        ensures
            step@ == self@.ask(Query::BytesToRead, Command::ClearCommError),
            step@.wf(),
    {
        self.ask(Query::BytesToRead, Command::ClearCommError)
    }

    /// Asks how many bytes were written and wait to be transmitted.
    pub fn bytes_to_write(self) -> (step: Step)
        ensures
            step@ == self@.ask(Query::BytesToWrite, Command::ClearCommError),
            step@.wf(),
    {
        self.ask(Query::BytesToWrite, Command::ClearCommError)
    }

    /// Moves the port to another device path. A closed port only takes the
    /// path. An open port is closed, takes the path, and is opened again: if
    /// the handle cannot be released the port stays as it was, and if the new
    /// device cannot be opened the port stays closed with the new path.
    pub fn set_path(self, path: &str) -> (step: Step)
        ensures
            step@ == self@.set_path(path@),
            step@.wf(),
    {
        proof {
            use_type_invariant(&self);
            self.builder.view_is_fields();
        }
        let ComPort { handle, builder, applied } = self;
        match handle {
            None => {
                let port = ComPort { handle: None, builder: builder.path(path), applied };
                Step::Done(port, Ok(Output::Unit))
            },
            Some(device) => {
                let pending = Pending {
                    handle,
                    builder,
                    applied,
                    stage: Stage::Reopening { path: path.to_owned() },
                };
                Step::Perform(
                    pending,
                    Request::Device { handle: device, command: Command::CloseHandle },
                )
            },
        }
    }

    /// Sets the baud rate. An open port applies its whole configuration to
    /// the device again; if that fails the port ends closed, and keeps the new
    /// value all the same.
    pub fn set_baud_rate(self, baud_rate: u32) -> (step: Step)
        ensures
            step@ == self@.configure(Configuration { baud_rate, ..self@.configuration }),
            step@.wf(),
    {
        proof {
            use_type_invariant(&self);
        }
        let ComPort { handle, builder, applied } = self;
        reconfigure(handle, builder.baud_rate(baud_rate), applied)
    }

    /// Sets the data bits. An open port applies its whole configuration to
    /// the device again; if that fails the port ends closed, and keeps the new
    /// value all the same.
    pub fn set_data_bits(self, data_bits: DataBits) -> (step: Step)
        ensures
            step@ == self@.configure(Configuration { data_bits, ..self@.configuration }),
            step@.wf(),
    {
        proof {
            use_type_invariant(&self);
        }
        let ComPort { handle, builder, applied } = self;
        reconfigure(handle, builder.data_bits(data_bits), applied)
    }

    /// Sets the flow control. An open port applies its whole configuration to
    /// the device again; if that fails the port ends closed, and keeps the new
    /// value all the same.
    pub fn set_flow_control(self, flow_control: FlowControl) -> (step: Step)
        ensures
            step@ == self@.configure(Configuration { flow_control, ..self@.configuration }),
            step@.wf(),
    {
        proof {
            use_type_invariant(&self);
        }
        let ComPort { handle, builder, applied } = self;
        reconfigure(handle, builder.flow_control(flow_control), applied)
    }

    /// Sets the parity. An open port applies its whole configuration to the
    /// device again; if that fails the port ends closed, and keeps the new
    /// value all the same.
    pub fn set_parity(self, parity: Parity) -> (step: Step)
        ensures
            step@ == self@.configure(Configuration { parity, ..self@.configuration }),
            step@.wf(),
    {
        proof {
            use_type_invariant(&self);
        }
        let ComPort { handle, builder, applied } = self;
        reconfigure(handle, builder.parity(parity), applied)
    }

    /// Sets the stop bits. An open port applies its whole configuration to
    /// the device again; if that fails the port ends closed, and keeps the new
    /// value all the same.
    pub fn set_stop_bits(self, stop_bits: StopBits) -> (step: Step)
        ensures
            step@ == self@.configure(Configuration { stop_bits, ..self@.configuration }),
            step@.wf(),
    {
        proof {
            use_type_invariant(&self);
        }
        let ComPort { handle, builder, applied } = self;
        reconfigure(handle, builder.stop_bits(stop_bits), applied)
    }

    /// Sets the timeout of reads and writes. An open port applies its whole
    /// configuration to the device again; if that fails the port ends closed,
    /// and keeps the new value all the same.
    pub fn set_timeout(self, timeout: Timeout) -> (step: Step)
        ensures
            step@ == self@.configure(Configuration { timeout, ..self@.configuration }),
            step@.wf(),
    {
        proof {
            use_type_invariant(&self);
        }
        let ComPort { handle, builder, applied } = self;
        reconfigure(handle, builder.timeout(timeout), applied)
    }

    /// Discards what waits in the chosen buffers and aborts the transfers
    /// that are under way in them.
    pub fn clear(self, buffer_to_clear: ClearBuffer) -> (step: Step)
        ensures
            step@ == self@.ask(
                Query::Clear,
                Command::PurgeComm { flags: purge_flags_of(buffer_to_clear) },
            ),
            step@.wf(),
    {
        self.ask(Query::Clear, Command::PurgeComm { flags: purge_flags(buffer_to_clear) })
    }

    /// Reads into a buffer of `len` bytes. The host is asked for as many
    /// bytes as the low 32 bits of `len` say. A read that brings nothing is
    /// `TimedOut`; a closed port is `NotConnected`.
    pub fn read(self, len: usize) -> (step: Step)
        ensures
            step@ == self@.ask(Query::Read, Command::ReadFile { len: len as u32 }),
            step@.wf(),
    {
        self.ask(Query::Read, Command::ReadFile { len: #[verifier::truncate] (len as u32) })
    }

    /// Writes from a buffer of `len` bytes. The host is asked to write as
    /// many bytes as the low 32 bits of `len` say; the result is the number
    /// that were written, which may be fewer. A closed port is
    /// `NotConnected`.
    pub fn write(self, len: usize) -> (step: Step)
        ensures
            step@ == self@.ask(Query::Write, Command::WriteFile { len: len as u32 }),
            step@.wf(),
    {
        self.ask(Query::Write, Command::WriteFile { len: #[verifier::truncate] (len as u32) })
    }

    /// Waits until what was written has left the buffers. A closed port is
    /// `NotConnected`.
    pub fn flush(self) -> (step: Step)
        ensures
            step@ == self@.ask(Query::Flush, Command::FlushFileBuffers),
            step@.wf(),
    {
        self.ask(Query::Flush, Command::FlushFileBuffers)
    }

    /// Sends a command that leaves the port as it is, if the port is open.
    fn ask(self, query: Query, command: Command) -> (step: Step)
        ensures
            step@ == self@.ask(query, command),
            step@.wf(),
    {
        proof {
            use_type_invariant(&self);
        }
        match self.handle {
            None => Step::Done(self, Err(Error::NotConnected)),
            Some(handle) => {
                let pending = Pending {
                    handle: self.handle,
                    builder: self.builder,
                    applied: self.applied,
                    stage: Stage::Asking { query },
                };
                Step::Perform(pending, Request::Device { handle, command })
            },
        }
    }
}

/// Starts to apply a configuration to the device behind `handle`.
fn apply(
    owned: Option<Handle>,
    builder: SerialPortBuilder,
    applied: Ghost<Option<Applied>>,
    handle: Handle,
) -> (step: Step)
    requires
        builder@.is_bound(),
        owned is None || owned == Some(handle),
    ensures
        step@ == (PortState { handle: owned, configuration: builder@, applied: applied@ }).apply(
            handle,
        ),
        step@.wf(),
{
    let pending = Pending { handle: owned, builder, applied, stage: Stage::Fetching { handle } };
    Step::Perform(pending, Request::Device { handle, command: Command::GetCommState })
}

/// Gives a port its new configuration and, if it is open, starts to apply it.
fn reconfigure(
    handle: Option<Handle>,
    builder: SerialPortBuilder,
    applied: Ghost<Option<Applied>>,
) -> (step: Step)
    requires
        handle is Some ==> builder@.is_bound(),
        handle is None ==> applied@ is None,
    ensures
        step@ == match handle {
            None => StepView::Done(
                PortState { handle, configuration: builder@, applied: applied@ },
                Ok(OutputView::Unit),
            ),
            Some(device) => (PortState {
                handle,
                configuration: builder@,
                applied: applied@,
            }).apply(device),
        },
        step@.wf(),
{
    match handle {
        None => Step::Done(ComPort { handle, builder, applied }, Ok(Output::Unit)),
        Some(device) => apply(handle, builder, applied, device),
    }
}

/// Starts to release a handle that could not be configured.
fn abandon(
    owned: Option<Handle>,
    builder: SerialPortBuilder,
    applied: Ghost<Option<Applied>>,
    handle: Handle,
    error: Error,
) -> (step: Step)
    ensures
        step@ == (PortState { handle: owned, configuration: builder@, applied: applied@ }).abandon(
            handle,
            error,
        ),
        step@.wf(),
{
    let pending = Pending { handle: owned, builder, applied, stage: Stage::Abandoning { error } };
    Step::Perform(pending, Request::Device { handle, command: Command::CloseHandle })
}

impl Pending {
    /// Every pending port is well formed for the request that is out.
    #[verifier::type_invariant]
    spec fn well_formed(&self) -> bool {
        self@.wf()
    }

    /// Takes the host's reply to the request that is out, and says what comes
    /// next: the end of the operation, or one more request.
    pub fn resume(self, reply: Reply) -> (step: Step)
        ensures
            step@ == self@.resume(reply),
            step@.wf(),
    {
        proof {
            use_type_invariant(&self);
            self.builder.view_is_fields();
        }
        let Pending { handle: owned, builder, applied, stage } = self;
        match stage {
            Stage::Acquiring => match reply {
                Reply::Handle(handle) => apply(owned, builder, applied, handle),
                _ => Step::Done(
                    ComPort { handle: owned, builder, applied },
                    Err(reply.to_failure()),
                ),
            },
            Stage::Fetching { handle } => match reply {
                Reply::State(state) => {
                    let mut next = state;
                    next.update(&builder);
                    proof {
                        lemma_update_round_trip(state, builder@);
                    }
                    let pending = Pending {
                        handle: owned,
                        builder,
                        applied,
                        stage: Stage::Committing { handle, state: Ghost(next) },
                    };
                    Step::Perform(
                        pending,
                        Request::Device { handle, command: Command::SetCommState { state: next } },
                    )
                },
                _ => abandon(owned, builder, applied, handle, reply.to_failure()),
            },
            Stage::Committing { handle, state } => match reply {
                Reply::Completed => {
                    let timeouts = CommTimeouts::from_timeout(builder.timeout);
                    let pending = Pending {
                        handle: owned,
                        builder,
                        applied,
                        stage: Stage::Timing { handle, state },
                    };
                    Step::Perform(
                        pending,
                        Request::Device { handle, command: Command::SetCommTimeouts { timeouts } },
                    )
                },
                _ => abandon(owned, builder, applied, handle, reply.to_failure()),
            },
            Stage::Timing { handle, state } => match reply {
                Reply::Completed => {
                    let ghost timeouts = CommTimeouts::of(builder.timeout);
                    let port = ComPort {
                        handle: Some(handle),
                        builder,
                        applied: Ghost(Some(Applied { state: state@, timeouts })),
                    };
                    Step::Done(port, Ok(Output::Unit))
                },
                _ => abandon(owned, builder, applied, handle, reply.to_failure()),
            },
            Stage::Abandoning { error } => Step::Done(
                ComPort { handle: None, builder, applied: Ghost(None) },
                Err(error),
            ),
            Stage::Releasing => match reply {
                Reply::Completed => Step::Done(
                    ComPort { handle: None, builder, applied: Ghost(None) },
                    Ok(Output::Unit),
                ),
                _ => Step::Done(
                    ComPort { handle: owned, builder, applied },
                    Err(reply.to_failure()),
                ),
            },
            Stage::Reopening { path } => match reply {
                Reply::Completed => {
                    let moved = SerialPortBuilder { path, ..builder };
                    proof {
                        moved.view_is_fields();
                    }
                    let port = ComPort { handle: None, builder: moved, applied: Ghost(None) };
                    port.open()
                },
                _ => Step::Done(
                    ComPort { handle: owned, builder, applied },
                    Err(reply.to_failure()),
                ),
            },
            Stage::Asking { query } => {
                let result = answer(owned, &builder, applied, query, reply);
                Step::Done(ComPort { handle: owned, builder, applied }, result)
            },
        }
    }
}

/// Reads the answer to a query from the host's reply.
fn answer(
    owned: Option<Handle>,
    builder: &SerialPortBuilder,
    applied: Ghost<Option<Applied>>,
    query: Query,
    reply: Reply,
) -> (r: Result<Output, Error>)
    requires
        (PortState { handle: owned, configuration: builder@, applied: applied@ }).wf(),
        owned is Some,
    ensures
        (match r {
            Ok(output) => Ok(output@),
            Err(error) => Err(error),
        }) == (PortState { handle: owned, configuration: builder@, applied: applied@ }).answer(
            query,
            reply,
        ),
        r matches Ok(output) ==> output@.wf(),
{
    match (query, reply) {
        (Query::Duplicate, Reply::Handle(handle)) => Ok(
            Output::Port(ComPort { handle: Some(handle), builder: builder.clone(), applied }),
        ),
        (Query::BaudRate, Reply::State(state)) => Ok(Output::BaudRate(state.read_baud_rate())),
        (Query::DataBits, Reply::State(state)) => match state.read_data_bits() {
            Ok(data_bits) => Ok(Output::DataBits(data_bits)),
            Err(error) => Err(error),
        },
        (Query::FlowControl, Reply::State(state)) => Ok(
            Output::FlowControl(state.read_flow_control()),
        ),
        (Query::Parity, Reply::State(state)) => match state.read_parity() {
            Ok(parity) => Ok(Output::Parity(parity)),
            Err(error) => Err(error),
        },
        (Query::StopBits, Reply::State(state)) => match state.read_stop_bits() {
            Ok(stop_bits) => Ok(Output::StopBits(stop_bits)),
            Err(error) => Err(error),
        },
        (Query::BytesToRead, Reply::Queues { input, output }) => Ok(Output::Queued(input)),
        (Query::BytesToWrite, Reply::Queues { input, output }) => Ok(Output::Queued(output)),
        (Query::Clear, Reply::Completed) => Ok(Output::Unit),
        (Query::Read, Reply::Transferred(count)) => if count == 0 {
            Err(Error::TimedOut)
        } else {
            Ok(Output::Transferred(count as usize))
        },
        (Query::Write, Reply::Transferred(count)) => Ok(Output::Transferred(count as usize)),
        (Query::Flush, Reply::Completed) => Ok(Output::Unit),
        _ => Err(reply.to_failure()),
    }
}

} // verus!
