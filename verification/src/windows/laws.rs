//! What holds of the life cycle, whatever the host answers.

use vstd::prelude::*;
use crate::builder::Configuration;
use crate::config::{DataBits, FlowControl, Parity, StopBits, Timeout};
use crate::error::Error;
use crate::windows::dcb::{lemma_update_round_trip, CommTimeouts, WindowsDCB};
use crate::windows::host::{Command, Handle, Reply, RequestView};
use crate::windows::machine::{
    Applied, OutputView, PendingState, PortState, Query, StageView, StepView,
};

verus! {

/// Every reply leads a well-formed pending port to a well-formed step: a port
/// that comes to rest open was configured with its current configuration, and
/// a port that comes to rest closed owns no handle.
pub proof fn lemma_resume_keeps_well_formed(pending: PendingState, reply: Reply)
    requires
        pending.wf(),
    ensures
        pending.resume(reply).wf(),
{
    if let StageView::Fetching { handle } = pending.stage {
        if let Reply::State(state) = reply {
            lemma_update_round_trip(state, pending.port.configuration);
        }
    }
}

/// Every operation on a well-formed port at rest begins with a well-formed
/// step.
pub proof fn lemma_operations_keep_well_formed(
    port: PortState,
    configuration: Configuration,
    path: Seq<char>,
    query: Query,
    command: Command,
)
    requires
        port.wf(),
        port.is_open() ==> configuration.is_bound(),
    ensures
        PortState::create(configuration).wf(),
        port.open().wf(),
        port.close().wf(),
        port.configure(configuration).wf(),
        port.set_path(path).wf(),
        port.ask(query, command).wf(),
        port.try_clone().wf(),
{
}

/// Opening a port that is bound to no device fails with `InvalidInput`, and
/// the port stays closed.
pub proof fn lemma_open_unbound_fails(port: PortState)
    requires
        port.wf(),
        !port.configuration.is_bound(),
    ensures
        port.open() == StepView::Done(port, Err(Error::InvalidInput)),
        !port.is_open(),
{
}

/// Whether a step belongs to an operation that opens the port: it is pending
/// on the way from opening the device to the last step of applying the
/// configuration, or it is over, and then a success has left the port open.
pub open spec fn is_opening(step: StepView) -> bool {
    match step {
        StepView::Done(port, result) => result is Ok ==> port.is_open(),
        StepView::Perform(pending, request) => {
            ||| pending.stage is Acquiring
            ||| pending.stage is Fetching
            ||| pending.stage is Committing
            ||| pending.stage is Timing
            ||| pending.stage is Abandoning
        },
    }
}

/// Whatever the host answers while a port is being opened, the operation stays
/// one that opens the port.
pub proof fn lemma_opening_runs_on(step: StepView, replies: Seq<Reply>)
    requires
        is_opening(step),
    ensures
        is_opening(step.run(replies)),
    decreases replies.len(),
{
    if replies.len() > 0 {
        lemma_opening_runs_on(step.given(replies[0]), replies.drop_first());
    }
}

/// Opening an open port fails with `AlreadyExists` and leaves the port as it
/// is. So does a second `open` after a first that succeeded, whatever the host
/// answered on the way: the first leaves the port open.
pub proof fn lemma_open_twice_fails(port: PortState, replies: Seq<Reply>)
    requires
        port.wf(),
    ensures
        port.is_open() ==> port.open() == StepView::Done(port, Err(Error::AlreadyExists)),
        port.open().run(replies) matches StepView::Done(opened, Ok(output)) ==> opened.is_open()
            && opened.open() == StepView::Done(opened, Err(Error::AlreadyExists)),
{
    lemma_opening_runs_on(port.open(), replies);
    lemma_run_keeps_well_formed(port.open(), replies);
}

/// Whatever the host answers, a well-formed step runs on to a well-formed
/// step.
pub proof fn lemma_run_keeps_well_formed(step: StepView, replies: Seq<Reply>)
    requires
        step.wf(),
    ensures
        step.run(replies).wf(),
    decreases replies.len(),
{
    if replies.len() > 0 {
        if let StepView::Perform(pending, request) = step {
            lemma_resume_keeps_well_formed(pending, replies[0]);
        }
        lemma_run_keeps_well_formed(step.given(replies[0]), replies.drop_first());
    }
}

/// Whether a step belongs to an operation that closes the port: the release
/// of the handle is out, or the operation is over, and then a success has left
/// the port closed.
pub open spec fn is_closing(step: StepView) -> bool {
    match step {
        StepView::Done(port, result) => result is Ok ==> !port.is_open(),
        StepView::Perform(pending, request) => pending.stage is Releasing,
    }
}

/// Whatever the host answers while a port is being closed, the operation
/// stays one that closes the port.
pub proof fn lemma_closing_runs_on(step: StepView, replies: Seq<Reply>)
    requires
        is_closing(step),
    ensures
        is_closing(step.run(replies)),
    decreases replies.len(),
{
    if replies.len() > 0 {
        lemma_closing_runs_on(step.given(replies[0]), replies.drop_first());
    }
}

/// Closing is idempotent. Closing a closed port succeeds at once and changes
/// nothing; and where a first `close` succeeded, whatever the host answered on
/// the way, the port is closed and a second `close` succeeds at once.
pub proof fn lemma_close_twice_succeeds(port: PortState, replies: Seq<Reply>)
    requires
        port.wf(),
    ensures
        !port.is_open() ==> port.close() == StepView::Done(port, Ok(OutputView::Unit)),
        port.close().run(replies) matches StepView::Done(closed, Ok(output)) ==> !closed.is_open()
            && closed.close() == StepView::Done(closed, Ok(OutputView::Unit)),
{
    lemma_closing_runs_on(port.close(), replies);
}

/// Closing an open port releases its handle: once the host confirms, the port
/// is closed, owns no handle, and keeps its configuration.
pub proof fn lemma_close_releases(port: PortState)
    requires
        port.wf(),
        port.is_open(),
    ensures
        port.close().releases(port.handle->0),
        port.close().given(Reply::Completed) == StepView::Done(
            PortState::closed(port.configuration),
            Ok(OutputView::Unit),
        ),
{
}

/// What applying a configuration to an open port comes to when the host
/// reports the block `reported` and accepts what is sent: the port is open
/// with that configuration, and the device holds `reported` updated with it.
pub open spec fn configured(
    port: PortState,
    configuration: Configuration,
    reported: WindowsDCB,
) -> PortState {
    PortState {
        handle: port.handle,
        configuration,
        applied: Some(
            Applied {
                state: reported.updated(configuration),
                timeouts: CommTimeouts::of(configuration.timeout),
            },
        ),
    }
}

/// Setting a value on an open port applies the whole configuration: the
/// device-control block that the host reports is updated with every
/// line-control value and committed, then the time limits are set. Where the
/// host accepts both, the port is open with the new configuration.
pub proof fn lemma_configure_applies_all(
    port: PortState,
    configuration: Configuration,
    reported: WindowsDCB,
)
    requires
        port.wf(),
        port.is_open(),
        configuration.path == port.configuration.path,
    ensures
        ({
            let handle = port.handle->0;
            let fetch = port.configure(configuration);
            let commit = fetch.given(Reply::State(reported));
            let time = commit.given(Reply::Completed);
            let done = time.given(Reply::Completed);
            &&& fetch matches StepView::Perform(pending, request) && request
                == (RequestView::Device { handle, command: Command::GetCommState })
            &&& commit matches StepView::Perform(pending, request) && request
                == (RequestView::Device {
                handle,
                command: Command::SetCommState { state: reported.updated(configuration) },
            })
            &&& time matches StepView::Perform(pending, request) && request
                == (RequestView::Device {
                handle,
                command: Command::SetCommTimeouts {
                    timeouts: CommTimeouts::of(configuration.timeout),
                },
            })
            &&& done == StepView::Done(
                configured(port, configuration, reported),
                Ok(OutputView::Unit),
            )
            &&& configured(port, configuration, reported).wf()
        }),
{
    lemma_update_round_trip(reported, configuration);
}

/// Where applying a configuration fails at any of its three requests, the
/// handle is released, the port ends closed whatever the host says of the
/// release, the failure is the result, and the port keeps the configuration
/// that could not be applied.
pub proof fn lemma_failed_application_closes(
    port: PortState,
    configuration: Configuration,
    reported: WindowsDCB,
    failure: Error,
    last: Reply,
)
    requires
        port.wf(),
        port.is_open(),
    ensures
        ({
            let handle = port.handle->0;
            let closed = StepView::Done(PortState::closed(configuration), Err(failure));
            let fetch = port.configure(configuration);
            let commit = fetch.given(Reply::State(reported));
            let time = commit.given(Reply::Completed);
            &&& fetch.given(Reply::Failed(failure)).releases(handle)
            &&& fetch.given(Reply::Failed(failure)).given(last) == closed
            &&& commit.given(Reply::Failed(failure)).releases(handle)
            &&& commit.given(Reply::Failed(failure)).given(last) == closed
            &&& time.given(Reply::Failed(failure)).releases(handle)
            &&& time.given(Reply::Failed(failure)).given(last) == closed
        }),
{
}

/// Round trip of the data bits on an open port: after `set_data_bits` has
/// succeeded, `data_bits` gives the value that was set, as long as the device
/// reports the block that it accepted.
pub proof fn lemma_data_bits_round_trip(port: PortState, data_bits: DataBits, reported: WindowsDCB)
    requires
        port.wf(),
        port.is_open(),
    ensures
        ({
            let configuration = Configuration { data_bits, ..port.configuration };
            let after = configured(port, configuration, reported);
            &&& port.configure(configuration).given(Reply::State(reported)).given(
                Reply::Completed,
            ).given(Reply::Completed) == StepView::Done(after, Ok(OutputView::Unit))
            &&& after.ask(Query::DataBits, Command::GetCommState).given(
                Reply::State(after.applied->0.state),
            ) == StepView::Done(after, Ok(OutputView::DataBits(data_bits)))
        }),
{
    let configuration = Configuration { data_bits, ..port.configuration };
    lemma_configure_applies_all(port, configuration, reported);
}

/// Round trip of the parity on an open port: after `set_parity` has
/// succeeded, `parity` gives the value that was set, as long as the device
/// reports the block that it accepted.
pub proof fn lemma_parity_round_trip(port: PortState, parity: Parity, reported: WindowsDCB)
    requires
        port.wf(),
        port.is_open(),
    ensures
        ({
            let configuration = Configuration { parity, ..port.configuration };
            let after = configured(port, configuration, reported);
            &&& port.configure(configuration).given(Reply::State(reported)).given(
                Reply::Completed,
            ).given(Reply::Completed) == StepView::Done(after, Ok(OutputView::Unit))
            &&& after.ask(Query::Parity, Command::GetCommState).given(
                Reply::State(after.applied->0.state),
            ) == StepView::Done(after, Ok(OutputView::Parity(parity)))
        }),
{
    let configuration = Configuration { parity, ..port.configuration };
    lemma_configure_applies_all(port, configuration, reported);
}

/// Round trip of the stop bits on an open port: after `set_stop_bits` has
/// succeeded, `stop_bits` gives the value that was set, as long as the device
/// reports the block that it accepted.
pub proof fn lemma_stop_bits_round_trip(port: PortState, stop_bits: StopBits, reported: WindowsDCB)
    requires
        port.wf(),
        port.is_open(),
    ensures
        ({
            let configuration = Configuration { stop_bits, ..port.configuration };
            let after = configured(port, configuration, reported);
            &&& port.configure(configuration).given(Reply::State(reported)).given(
                Reply::Completed,
            ).given(Reply::Completed) == StepView::Done(after, Ok(OutputView::Unit))
            &&& after.ask(Query::StopBits, Command::GetCommState).given(
                Reply::State(after.applied->0.state),
            ) == StepView::Done(after, Ok(OutputView::StopBits(stop_bits)))
        }),
{
    let configuration = Configuration { stop_bits, ..port.configuration };
    lemma_configure_applies_all(port, configuration, reported);
}

/// Round trip of the baud rate on an open port: after `set_baud_rate` has
/// succeeded, `baud_rate` gives the value that was set, as long as the device
/// reports the block that it accepted.
pub proof fn lemma_baud_rate_round_trip(port: PortState, baud_rate: u32, reported: WindowsDCB)
    requires
        port.wf(),
        port.is_open(),
    ensures
        ({
            let configuration = Configuration { baud_rate, ..port.configuration };
            let after = configured(port, configuration, reported);
            &&& port.configure(configuration).given(Reply::State(reported)).given(
                Reply::Completed,
            ).given(Reply::Completed) == StepView::Done(after, Ok(OutputView::Unit))
            &&& after.ask(Query::BaudRate, Command::GetCommState).given(
                Reply::State(after.applied->0.state),
            ) == StepView::Done(after, Ok(OutputView::BaudRate(baud_rate)))
        }),
{
    let configuration = Configuration { baud_rate, ..port.configuration };
    lemma_configure_applies_all(port, configuration, reported);
}

/// Round trip of the flow control on an open port: after `set_flow_control`
/// has succeeded, `flow_control` gives the value that was set, be it none,
/// software or hardware, as long as the device reports the block that it
/// accepted.
pub proof fn lemma_flow_control_port_round_trip(
    port: PortState,
    flow_control: FlowControl,
    reported: WindowsDCB,
)
    requires
        port.wf(),
        port.is_open(),
    ensures
        ({
            let configuration = Configuration { flow_control, ..port.configuration };
            let after = configured(port, configuration, reported);
            &&& port.configure(configuration).given(Reply::State(reported)).given(
                Reply::Completed,
            ).given(Reply::Completed) == StepView::Done(after, Ok(OutputView::Unit))
            &&& after.ask(Query::FlowControl, Command::GetCommState).given(
                Reply::State(after.applied->0.state),
            ) == StepView::Done(after, Ok(OutputView::FlowControl(flow_control)))
        }),
{
    let configuration = Configuration { flow_control, ..port.configuration };
    lemma_configure_applies_all(port, configuration, reported);
}

/// Reading the flow control back loses information: a flag word with a
/// hardware bit set reads as hardware flow control, whatever its software bits
/// are.
pub proof fn lemma_hardware_wins(block: WindowsDCB)
    requires
        block.bit_fields & 0x3004u32 != 0,
    ensures
        block.decode_flow_control() == FlowControl::Hardware,
{
}

/// A clone of an open port is open on a handle of its own and holds a copy of
/// the configuration, and the port itself is as before. Closing the clone
/// releases the clone's handle and no other, and leaves the port open.
pub proof fn lemma_clone_is_independent(port: PortState, duplicate: Handle)
    requires
        port.wf(),
        port.is_open(),
    ensures
        ({
            let clone = PortState { handle: Some(duplicate), ..port };
            &&& port.try_clone().given(Reply::Handle(duplicate)) == StepView::Done(
                port,
                Ok(OutputView::Port(clone)),
            )
            &&& clone.wf()
            &&& clone.is_open()
            &&& clone.configuration == port.configuration
            &&& clone.close().releases(duplicate)
            &&& forall|other: Handle| other != duplicate ==> !clone.close().releases(other)
            &&& clone.close().given(Reply::Completed) == StepView::Done(
                PortState::closed(port.configuration),
                Ok(OutputView::Unit),
            )
            &&& port.is_open()
        }),
{
}

/// A closed port is cloned on the spot, as a closed port with a copy of the
/// configuration.
pub proof fn lemma_clone_of_closed(port: PortState)
    requires
        port.wf(),
        !port.is_open(),
    ensures
        port.try_clone() == StepView::Done(port, Ok(OutputView::Port(port))),
{
}

/// Moving an open port to another path closes it before anything else.
/// Where the handle is released, the port takes the new path whether or not
/// the new device can be opened: with an empty path, or if the device cannot
/// be opened, the port ends closed with the new path and the failure is the
/// result. Where the handle cannot be released, the port stays as it was.
pub proof fn lemma_set_path_closes_first(
    port: PortState,
    path: Seq<char>,
    failure: Error,
)
    requires
        port.wf(),
        port.is_open(),
    ensures
        ({
            let moved = PortState::closed(Configuration { path, ..port.configuration });
            let release = port.set_path(path);
            let reopen = release.given(Reply::Completed);
            &&& release.releases(port.handle->0)
            &&& release.given(Reply::Failed(failure)) == StepView::Done(port, Err(failure))
            &&& reopen == moved.open()
            &&& path.len() == 0 ==> reopen == StepView::Done(moved, Err(Error::InvalidInput))
            &&& path.len() > 0 ==> reopen.given(Reply::Failed(failure)) == StepView::Done(
                moved,
                Err(failure),
            )
        }),
{
}

/// A read that transferred nothing is `TimedOut`, whatever the timeout; a
/// read that transferred bytes gives their number.
pub proof fn lemma_empty_read_times_out(port: PortState, len: u32, count: u32)
    requires
        port.wf(),
        port.is_open(),
    ensures
        port.ask(Query::Read, Command::ReadFile { len }).given(Reply::Transferred(0))
            == StepView::Done(port, Err(Error::TimedOut)),
        count > 0 ==> port.ask(Query::Read, Command::ReadFile { len }).given(
            Reply::Transferred(count),
        ) == StepView::Done(port, Ok(OutputView::Transferred(count as usize))),
{
}

/// No handle is lost: a handle that a pending port holds is still held after
/// the reply, unless the request that was out released it, or the next
/// request does.
pub proof fn lemma_handle_kept_until_released(pending: PendingState, reply: Reply, handle: Handle)
    requires
        pending.wf(),
        pending.holds(handle),
    ensures
        ({
            let next = pending.resume(reply);
            next.holds(handle) || pending.is_releasing() || next.releases(handle)
        }),
{
}

/// A handle is released once: the request to release a handle names a handle
/// that the pending port holds, and after the reply to such a request the
/// next step is not another release.
pub proof fn lemma_released_once(pending: PendingState, reply: Reply, handle: Handle)
    requires
        pending.wf(),
    ensures
        pending.resume(reply).releases(handle) ==> pending.holds(handle),
        pending.is_releasing() ==> !pending.resume(reply).releases(handle),
{
}

/// No request goes to a handle that the port does not hold: an operation on
/// a port at rest asks for work on the port's own handle, and a pending port
/// asks for work on a handle that it holds or that the host has just opened
/// for it.
pub proof fn lemma_requests_use_held_handle(
    port: PortState,
    pending: PendingState,
    reply: Reply,
    configuration: Configuration,
    path: Seq<char>,
    query: Query,
    command: Command,
    handle: Handle,
)
    requires
        port.wf(),
        pending.wf(),
    ensures
        asks_device(port.open(), handle) ==> port.handle == Some(handle),
        asks_device(port.close(), handle) ==> port.handle == Some(handle),
        asks_device(port.configure(configuration), handle) ==> port.handle == Some(handle),
        asks_device(port.set_path(path), handle) ==> port.handle == Some(handle),
        asks_device(port.ask(query, command), handle) ==> port.handle == Some(handle),
        asks_device(port.try_clone(), handle) ==> port.handle == Some(handle),
        asks_device(pending.resume(reply), handle) ==> pending.holds(handle) || (pending.stage
            is Acquiring && reply == Reply::Handle(handle)),
{
}

/// Whether the step asks the host for work on the device behind `handle`.
pub open spec fn asks_device(step: StepView, handle: Handle) -> bool {
    step matches StepView::Perform(pending, request) && (request matches RequestView::Device {
        handle: device,
        command,
    } && device == handle)
}

/// A timeout of zero makes reads and writes non-blocking: both constants are
/// zero. A timeout of at least a millisecond sets both constants to its whole
/// milliseconds, and to the largest value but one where there are more.
pub proof fn lemma_timeout_limits(timeout: Timeout)
    ensures
        timeout.millis() == 0 ==> CommTimeouts::of(timeout).read_total_timeout_constant == 0
            && CommTimeouts::of(timeout).write_total_timeout_constant == 0,
        timeout.millis() <= 0xffff_fffe ==> CommTimeouts::of(timeout).read_total_timeout_constant
            == timeout.millis(),
        timeout.millis() > 0xffff_fffe ==> CommTimeouts::of(timeout).read_total_timeout_constant
            == 0xffff_fffe,
        CommTimeouts::of(timeout).write_total_timeout_constant == CommTimeouts::of(
            timeout,
        ).read_total_timeout_constant,
{
}

} // verus!
