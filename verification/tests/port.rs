use serialport::config::{
    ClearBuffer, DataBits, FlowControl, Parity, SerialPortInfo, SerialPortType, StopBits, Timeout,
    UsbPortInfo,
};
use serialport::windows::dcb::{CommTimeouts, WindowsDCB};
use serialport::{
    Command, Communication, ComPort, Error, Handle, Output, Reply, Request, SerialPortBuilder, Step,
};

/// A host that plays the operating system: it knows which devices exist,
/// hands out handles, keeps one device-control block, and can be told to fail
/// a command.
struct Host {
    devices: Vec<String>,
    next_handle: usize,
    open: Vec<Handle>,
    state: WindowsDCB,
    timeouts: Option<CommTimeouts>,
    input: u32,
    output: u32,
    accepts: u32,
    failing: Option<(&'static str, Error)>,
    log: Vec<Request>,
}

fn valid(raw: usize) -> Handle {
    Handle::from_raw(raw).expect("a valid handle")
}

fn default_block() -> WindowsDCB {
    WindowsDCB {
        dcb_length: 28,
        baud_rate: 1200,
        bit_fields: 0x0000_1011,
        reserved: 0,
        xon_lim: 2048,
        xoff_lim: 512,
        byte_size: 7,
        parity: 2,
        stop_bits: 0,
        xon_char: 17,
        xoff_char: 19,
        error_char: 0,
        eof_char: 0,
        evt_char: 0,
        reserved1: 0,
    }
}

fn name_of(command: &Command) -> &'static str {
    match command {
        Command::GetCommState => "GetCommState",
        Command::SetCommState { .. } => "SetCommState",
        Command::SetCommTimeouts { .. } => "SetCommTimeouts",
        Command::CloseHandle => "CloseHandle",
        Command::DuplicateHandle { .. } => "DuplicateHandle",
        Command::ClearCommError => "ClearCommError",
        Command::PurgeComm { .. } => "PurgeComm",
        Command::ReadFile { .. } => "ReadFile",
        Command::WriteFile { .. } => "WriteFile",
        Command::FlushFileBuffers => "FlushFileBuffers",
    }
}

impl Host {
    fn with_devices(names: &[&str]) -> Host {
        Host {
            devices: names.iter().map(|name| format!("\\\\.\\{}", name)).collect(),
            next_handle: 100,
            open: Vec::new(),
            state: default_block(),
            timeouts: None,
            input: 0,
            output: 0,
            accepts: u32::MAX,
            failing: None,
            log: Vec::new(),
        }
    }

    fn fail(&mut self, command: &'static str, error: Error) {
        self.failing = Some((command, error));
    }

    fn perform(&mut self, request: &Request) -> Reply {
        self.log.push(request.clone());
        match request {
            Request::CreateFile { path, .. } => {
                if let Some(("CreateFile", error)) = self.failing {
                    return Reply::Failed(error);
                }
                if !self.devices.contains(path) {
                    return Reply::Failed(Error::NotFound);
                }
                let opened = valid(self.next_handle);
                self.next_handle += 1;
                self.open.push(opened);
                Reply::Handle(opened)
            }
            Request::Device { handle, command } => {
                if let Some((name, error)) = self.failing {
                    if name == name_of(command) {
                        return Reply::Failed(error);
                    }
                }
                if !self.open.contains(handle) {
                    return Reply::Failed(Error::Os(6));
                }
                match *command {
                    Command::GetCommState => Reply::State(self.state),
                    Command::SetCommState { state } => {
                        self.state = state;
                        Reply::Completed
                    }
                    Command::SetCommTimeouts { timeouts } => {
                        self.timeouts = Some(timeouts);
                        Reply::Completed
                    }
                    Command::CloseHandle => {
                        self.open.retain(|held| held != handle);
                        Reply::Completed
                    }
                    Command::DuplicateHandle { .. } => {
                        let copy = valid(self.next_handle);
                        self.next_handle += 1;
                        self.open.push(copy);
                        Reply::Handle(copy)
                    }
                    Command::ClearCommError => {
                        Reply::Queues { input: self.input, output: self.output }
                    }
                    Command::PurgeComm { flags } => {
                        if flags & 0x0008 != 0 {
                            self.input = 0;
                        }
                        if flags & 0x0004 != 0 {
                            self.output = 0;
                        }
                        Reply::Completed
                    }
                    Command::ReadFile { len } => {
                        let count = len.min(self.input);
                        self.input -= count;
                        Reply::Transferred(count)
                    }
                    Command::WriteFile { len } => Reply::Transferred(len.min(self.accepts)),
                    Command::FlushFileBuffers => {
                        self.output = 0;
                        Reply::Completed
                    }
                }
            }
        }
    }

    fn commands(&self) -> Vec<&'static str> {
        self.log
            .iter()
            .map(|request| match request {
                Request::CreateFile { .. } => "CreateFile",
                Request::Device { command, .. } => name_of(command),
            })
            .collect()
    }
}

fn drive(mut step: Step, host: &mut Host) -> (ComPort, Result<Output, Error>) {
    loop {
        match step {
            Step::Done(port, result) => return (port, result),
            Step::Perform(pending, request) => {
                let reply = host.perform(&request);
                step = pending.resume(reply);
            }
        }
    }
}

fn unit(result: Result<Output, Error>) -> Result<(), Error> {
    match result {
        Ok(Output::Unit) => Ok(()),
        Ok(_) => panic!("the operation gave a value where none was due"),
        Err(error) => Err(error),
    }
}

fn opened(path: &str, baud_rate: u32, host: &mut Host) -> ComPort {
    let (port, result) = drive(serialport::new(path, baud_rate).build(), host);
    assert_eq!(unit(result), Ok(()));
    assert!(port.is_open());
    port
}

fn read_baud_rate(port: ComPort, host: &mut Host) -> (ComPort, Result<u32, Error>) {
    let (port, result) = drive(port.baud_rate(), host);
    let value = match result {
        Ok(Output::BaudRate(value)) => Ok(value),
        Ok(_) => panic!("not a baud rate"),
        Err(error) => Err(error),
    };
    (port, value)
}

fn read_data_bits(port: ComPort, host: &mut Host) -> (ComPort, Result<DataBits, Error>) {
    let (port, result) = drive(port.data_bits(), host);
    let value = match result {
        Ok(Output::DataBits(value)) => Ok(value),
        Ok(_) => panic!("not data bits"),
        Err(error) => Err(error),
    };
    (port, value)
}

fn read_parity(port: ComPort, host: &mut Host) -> (ComPort, Result<Parity, Error>) {
    let (port, result) = drive(port.parity(), host);
    let value = match result {
        Ok(Output::Parity(value)) => Ok(value),
        Ok(_) => panic!("not a parity"),
        Err(error) => Err(error),
    };
    (port, value)
}

fn read_stop_bits(port: ComPort, host: &mut Host) -> (ComPort, Result<StopBits, Error>) {
    let (port, result) = drive(port.stop_bits(), host);
    let value = match result {
        Ok(Output::StopBits(value)) => Ok(value),
        Ok(_) => panic!("not stop bits"),
        Err(error) => Err(error),
    };
    (port, value)
}

fn read_flow_control(port: ComPort, host: &mut Host) -> (ComPort, Result<FlowControl, Error>) {
    let (port, result) = drive(port.flow_control(), host);
    let value = match result {
        Ok(Output::FlowControl(value)) => Ok(value),
        Ok(_) => panic!("not a flow control"),
        Err(error) => Err(error),
    };
    (port, value)
}

fn queued(result: Result<Output, Error>) -> Result<u32, Error> {
    match result {
        Ok(Output::Queued(count)) => Ok(count),
        Ok(_) => panic!("not a number of waiting bytes"),
        Err(error) => Err(error),
    }
}

fn transferred(result: Result<Output, Error>) -> Result<usize, Error> {
    match result {
        Ok(Output::Transferred(count)) => Ok(count),
        Ok(_) => panic!("not a number of bytes"),
        Err(error) => Err(error),
    }
}

#[test]
fn builder_without_path_gives_a_closed_port() {
    let step = SerialPortBuilder::new().build();
    match step {
        Step::Done(port, result) => {
            assert_eq!(unit(result), Ok(()));
            assert!(!port.is_open());
            assert_eq!(port.path(), Some(String::new()));
            assert_eq!(port.timeout(), Timeout::zero());
        }
        Step::Perform(..) => panic!("a port without a device has nothing to ask"),
    }
    let (port, result) = drive(serialport::new("", 115_200).build(), &mut Host::with_devices(&[]));
    assert_eq!(unit(result), Ok(()));
    assert!(!port.is_open());
}

#[test]
fn default_builder_is_the_new_builder() {
    assert_eq!(SerialPortBuilder::default(), SerialPortBuilder::new());
    assert_eq!(serialport::new("", 9600), SerialPortBuilder::new());
    assert_eq!(
        serialport::new("COM7", 19_200),
        SerialPortBuilder::new().path("COM7").baud_rate(19_200)
    );
    let builder = serialport::new("COM7", 19_200).timeout(Timeout::from_millis(20));
    assert_eq!(builder.clone(), builder);
}

#[test]
fn builder_with_path_opens_the_port() {
    let mut host = Host::with_devices(&["PORT1"]);
    let port = opened("PORT1", 115_200, &mut host);
    assert_eq!(port.path(), Some("PORT1".to_string()));
    let (port, baud_rate) = read_baud_rate(port, &mut host);
    assert_eq!(baud_rate, Ok(115_200));
    assert!(port.is_open());
    assert_eq!(
        host.commands(),
        vec!["CreateFile", "GetCommState", "SetCommState", "SetCommTimeouts", "GetCommState"]
    );
}

#[test]
fn open_asks_for_the_device_in_its_namespace() {
    let step = serialport::new("COM1", 9600).build();
    match step {
        Step::Perform(_, request) => assert_eq!(
            request,
            Request::CreateFile {
                path: "\\\\.\\COM1".to_string(),
                access: 0xc000_0000,
                share_mode: 0,
                disposition: 3,
                attributes: 0x80,
            }
        ),
        Step::Done(..) => panic!("the device has to be opened"),
    }
    match serialport::new("\\\\.\\COM15", 9600).build() {
        Step::Perform(_, Request::CreateFile { path, .. }) => assert_eq!(path, "\\\\.\\COM15"),
        _ => panic!("the device has to be opened"),
    }
}

#[test]
fn open_applies_the_whole_configuration() {
    let mut host = Host::with_devices(&["COM1"]);
    let builder = serialport::new("COM1", 57_600)
        .data_bits(DataBits::Six)
        .parity(Parity::Odd)
        .stop_bits(StopBits::Two)
        .flow_control(FlowControl::Hardware)
        .timeout(Timeout::from_millis(250));
    let (port, result) = drive(builder.build(), &mut host);
    assert_eq!(unit(result), Ok(()));
    assert!(port.is_open());
    assert_eq!(port.timeout(), Timeout::from_millis(250));
    let mut expected = default_block();
    expected.baud_rate = 57_600;
    expected.byte_size = 6;
    expected.parity = 1;
    expected.stop_bits = 2;
    expected.bit_fields = 0x0000_2015;
    assert_eq!(host.state, expected);
    assert_eq!(
        host.timeouts,
        Some(CommTimeouts {
            read_interval_timeout: 0xffff_ffff,
            read_total_timeout_multiplier: 0,
            read_total_timeout_constant: 250,
            write_total_timeout_multiplier: 0,
            write_total_timeout_constant: 250,
        })
    );
    assert_eq!(
        host.log[2],
        Request::Device { handle: valid(100), command: Command::SetCommState { state: expected } }
    );
}

#[test]
fn open_without_path_is_invalid_input() {
    let (port, _) = drive(SerialPortBuilder::new().build(), &mut Host::with_devices(&[]));
    match port.open() {
        Step::Done(port, result) => {
            assert_eq!(unit(result), Err(Error::InvalidInput));
            assert!(!port.is_open());
        }
        Step::Perform(..) => panic!("there is no device to open"),
    }
}

#[test]
fn open_twice_is_already_exists() {
    let mut host = Host::with_devices(&["COM1"]);
    let port = opened("COM1", 9600, &mut host);
    let asked = host.log.len();
    let (port, result) = drive(port.open(), &mut host);
    assert_eq!(unit(result), Err(Error::AlreadyExists));
    assert!(port.is_open());
    assert_eq!(host.log.len(), asked);
    assert_eq!(host.open, vec![valid(100)]);
}

#[test]
fn close_twice_succeeds() {
    let mut host = Host::with_devices(&["COM1"]);
    let port = opened("COM1", 9600, &mut host);
    let (port, result) = drive(port.close(), &mut host);
    assert_eq!(unit(result), Ok(()));
    assert!(!port.is_open());
    assert!(host.open.is_empty());
    let asked = host.log.len();
    let (port, result) = drive(port.close(), &mut host);
    assert_eq!(unit(result), Ok(()));
    assert!(!port.is_open());
    assert_eq!(host.log.len(), asked);
}

#[test]
fn close_then_open_again() {
    let mut host = Host::with_devices(&["COM1"]);
    let port = opened("COM1", 9600, &mut host);
    let (port, result) = drive(port.close(), &mut host);
    assert_eq!(unit(result), Ok(()));
    let (port, result) = drive(port.open(), &mut host);
    assert_eq!(unit(result), Ok(()));
    assert!(port.is_open());
    assert_eq!(host.open, vec![valid(101)]);
}

#[test]
fn close_that_fails_leaves_the_port_open() {
    let mut host = Host::with_devices(&["COM1"]);
    let port = opened("COM1", 9600, &mut host);
    host.fail("CloseHandle", Error::Os(5));
    let (port, result) = drive(port.close(), &mut host);
    assert_eq!(unit(result), Err(Error::Os(5)));
    assert!(port.is_open());
    host.failing = None;
    let (port, result) = drive(port.close(), &mut host);
    assert_eq!(unit(result), Ok(()));
    assert!(!port.is_open());
}

#[test]
fn open_of_a_missing_device_is_not_found() {
    let mut host = Host::with_devices(&["COM1"]);
    let (port, result) = drive(serialport::new("COM9", 9600).build(), &mut host);
    assert_eq!(unit(result), Err(Error::NotFound));
    assert!(!port.is_open());
    assert_eq!(port.path(), Some("COM9".to_string()));
    assert_eq!(host.commands(), vec!["CreateFile"]);
}

#[test]
fn open_reports_permission_denied() {
    let mut host = Host::with_devices(&["COM1"]);
    host.fail("CreateFile", Error::PermissionDenied);
    let (port, result) = drive(serialport::new("COM1", 9600).build(), &mut host);
    assert_eq!(unit(result), Err(Error::PermissionDenied));
    assert!(!port.is_open());
}

#[test]
fn open_that_cannot_configure_releases_the_handle() {
    for command in ["GetCommState", "SetCommState", "SetCommTimeouts"] {
        let mut host = Host::with_devices(&["COM1"]);
        host.fail(command, Error::Os(87));
        let (port, result) = drive(serialport::new("COM1", 9600).build(), &mut host);
        assert_eq!(unit(result), Err(Error::Os(87)));
        assert!(!port.is_open());
        assert!(host.open.is_empty());
        assert_eq!(host.commands().last(), Some(&"CloseHandle"));
    }
}

#[test]
fn round_trip_of_data_bits_parity_and_stop_bits() {
    let all_data_bits = [DataBits::Five, DataBits::Six, DataBits::Seven, DataBits::Eight];
    let parities = [Parity::Off, Parity::Odd, Parity::Even, Parity::Mark, Parity::Space];
    let all_stop_bits = [StopBits::One, StopBits::OnePointFive, StopBits::Two];
    for data_bits in all_data_bits {
        for parity in parities {
            for stop_bits in all_stop_bits {
                let mut host = Host::with_devices(&["COM1"]);
                let port = opened("COM1", 9600, &mut host);
                let (port, result) = drive(port.set_data_bits(data_bits), &mut host);
                assert_eq!(unit(result), Ok(()));
                let (port, result) = drive(port.set_parity(parity), &mut host);
                assert_eq!(unit(result), Ok(()));
                let (port, result) = drive(port.set_stop_bits(stop_bits), &mut host);
                assert_eq!(unit(result), Ok(()));
                let (port, read) = read_data_bits(port, &mut host);
                assert_eq!(read, Ok(data_bits));
                let (port, read) = read_parity(port, &mut host);
                assert_eq!(read, Ok(parity));
                let (port, read) = read_stop_bits(port, &mut host);
                assert_eq!(read, Ok(stop_bits));
                assert!(port.is_open());
            }
        }
    }
}

#[test]
fn round_trip_of_flow_control() {
    let mut host = Host::with_devices(&["COM1"]);
    let port = opened("COM1", 9600, &mut host);
    let (port, result) = drive(port.set_flow_control(FlowControl::Hardware), &mut host);
    assert_eq!(unit(result), Ok(()));
    let (port, read) = read_flow_control(port, &mut host);
    assert_eq!(read, Ok(FlowControl::Hardware));
    let (port, result) = drive(port.set_flow_control(FlowControl::Off), &mut host);
    assert_eq!(unit(result), Ok(()));
    let (port, read) = read_flow_control(port, &mut host);
    assert_eq!(read, Ok(FlowControl::Off));
    let (port, result) = drive(port.set_flow_control(FlowControl::Software), &mut host);
    assert_eq!(unit(result), Ok(()));
    let (_, read) = read_flow_control(port, &mut host);
    assert_eq!(read, Ok(FlowControl::Software));
}

#[test]
fn flow_control_set_from_outside_reads_as_hardware() {
    let mut host = Host::with_devices(&["COM1"]);
    let port = opened("COM1", 9600, &mut host);
    host.state.bit_fields = 0x0000_0304;
    let (_, read) = read_flow_control(port, &mut host);
    assert_eq!(read, Ok(FlowControl::Hardware));
}

#[test]
fn round_trip_of_baud_rate_and_timeout() {
    let mut host = Host::with_devices(&["COM1"]);
    let port = opened("COM1", 9600, &mut host);
    let (port, result) = drive(port.set_baud_rate(230_400), &mut host);
    assert_eq!(unit(result), Ok(()));
    let (port, read) = read_baud_rate(port, &mut host);
    assert_eq!(read, Ok(230_400));
    let (port, result) = drive(port.set_timeout(Timeout::from_secs(5)), &mut host);
    assert_eq!(unit(result), Ok(()));
    assert_eq!(port.timeout(), Timeout::from_secs(5));
    assert_eq!(host.timeouts.map(|limits| limits.read_total_timeout_constant), Some(5000));
    assert_eq!(host.timeouts.map(|limits| limits.write_total_timeout_constant), Some(5000));
}

#[test]
fn setter_on_an_open_port_applies_everything_again() {
    let mut host = Host::with_devices(&["COM1"]);
    let port = opened("COM1", 9600, &mut host);
    host.log.clear();
    host.state.baud_rate = 300;
    let (port, result) = drive(port.set_parity(Parity::Even), &mut host);
    assert_eq!(unit(result), Ok(()));
    assert!(port.is_open());
    assert_eq!(host.commands(), vec!["GetCommState", "SetCommState", "SetCommTimeouts"]);
    assert_eq!(host.state.baud_rate, 9600);
    assert_eq!(host.state.parity, 2);
}

#[test]
fn setter_on_a_closed_port_only_stores() {
    let mut host = Host::with_devices(&["COM1"]);
    let (port, _) = drive(SerialPortBuilder::new().build(), &mut host);
    let (port, result) = drive(port.set_baud_rate(38_400), &mut host);
    assert_eq!(unit(result), Ok(()));
    let (port, result) = drive(port.set_data_bits(DataBits::Seven), &mut host);
    assert_eq!(unit(result), Ok(()));
    let (port, result) = drive(port.set_parity(Parity::Space), &mut host);
    assert_eq!(unit(result), Ok(()));
    let (port, result) = drive(port.set_stop_bits(StopBits::Two), &mut host);
    assert_eq!(unit(result), Ok(()));
    let (port, result) = drive(port.set_flow_control(FlowControl::Software), &mut host);
    assert_eq!(unit(result), Ok(()));
    let (port, result) = drive(port.set_timeout(Timeout::from_millis(75)), &mut host);
    assert_eq!(unit(result), Ok(()));
    assert!(!port.is_open());
    assert!(host.log.is_empty());
    assert_eq!(port.timeout(), Timeout::from_millis(75));
    let (port, result) = drive(port.set_path("COM1"), &mut host);
    assert_eq!(unit(result), Ok(()));
    assert!(!port.is_open());
    assert!(host.log.is_empty());
    let (port, result) = drive(port.open(), &mut host);
    assert_eq!(unit(result), Ok(()));
    assert!(port.is_open());
    assert_eq!(host.state.baud_rate, 38_400);
    assert_eq!(host.state.byte_size, 7);
    assert_eq!(host.state.parity, 4);
    assert_eq!(host.state.stop_bits, 2);
    assert_eq!(host.state.bit_fields, 0x0000_0311);
    assert_eq!(host.timeouts.map(|limits| limits.read_total_timeout_constant), Some(75));
}

#[test]
fn setter_that_fails_closes_the_port_and_keeps_the_value() {
    for command in ["GetCommState", "SetCommState", "SetCommTimeouts"] {
        let mut host = Host::with_devices(&["COM1"]);
        let port = opened("COM1", 9600, &mut host);
        host.fail(command, Error::Os(31));
        let (port, result) = drive(port.set_baud_rate(4800), &mut host);
        assert_eq!(unit(result), Err(Error::Os(31)));
        assert!(!port.is_open());
        assert!(host.open.is_empty());
        host.failing = None;
        let (port, result) = drive(port.open(), &mut host);
        assert_eq!(unit(result), Ok(()));
        let (_, read) = read_baud_rate(port, &mut host);
        assert_eq!(read, Ok(4800));
    }
}

#[test]
fn setter_fails_safe_even_if_the_release_fails() {
    let mut host = Host::with_devices(&["COM1"]);
    let port = opened("COM1", 9600, &mut host);
    let step = port.set_stop_bits(StopBits::Two);
    let pending = match step {
        Step::Perform(pending, _) => pending,
        Step::Done(..) => panic!("an open port has to apply the setting"),
    };
    let pending = match pending.resume(Reply::Failed(Error::PermissionDenied)) {
        Step::Perform(pending, request) => {
            assert_eq!(
                request,
                Request::Device { handle: valid(100), command: Command::CloseHandle }
            );
            pending
        }
        Step::Done(..) => panic!("the handle has to be released"),
    };
    match pending.resume(Reply::Failed(Error::Os(6))) {
        Step::Done(port, result) => {
            assert_eq!(unit(result), Err(Error::PermissionDenied));
            assert!(!port.is_open());
        }
        Step::Perform(..) => panic!("nothing is left to do"),
    }
}

#[test]
fn clone_of_an_open_port_is_open_and_independent() {
    let mut host = Host::with_devices(&["COM1"]);
    let port = opened("COM1", 9600, &mut host);
    let (port, result) = drive(port.try_clone_native(), &mut host);
    let clone = match result {
        Ok(Output::Port(clone)) => clone,
        _ => panic!("the clone is missing"),
    };
    assert!(port.is_open());
    assert!(clone.is_open());
    assert_eq!(clone.path(), Some("COM1".to_string()));
    assert_eq!(clone.timeout(), port.timeout());
    assert_eq!(host.open, vec![valid(100), valid(101)]);
    let (clone, result) = drive(clone.close(), &mut host);
    assert_eq!(unit(result), Ok(()));
    assert!(!clone.is_open());
    assert!(port.is_open());
    assert_eq!(host.open, vec![valid(100)]);
    let (port, read) = read_baud_rate(port, &mut host);
    assert_eq!(read, Ok(9600));
    assert!(port.is_open());
}

#[test]
fn clone_of_a_closed_port_is_closed() {
    let mut host = Host::with_devices(&[]);
    let (port, _) = drive(serialport::new("", 9600).timeout(Timeout::from_millis(5)).build(), &mut host);
    let (port, result) = drive(port.try_clone_native(), &mut host);
    let clone = match result {
        Ok(Output::Port(clone)) => clone,
        _ => panic!("the clone is missing"),
    };
    assert!(!port.is_open());
    assert!(!clone.is_open());
    assert_eq!(clone.path(), Some(String::new()));
    assert_eq!(clone.timeout(), Timeout::from_millis(5));
    assert!(host.log.is_empty());
}

#[test]
fn clone_that_fails_leaves_the_port_open() {
    let mut host = Host::with_devices(&["COM1"]);
    let port = opened("COM1", 9600, &mut host);
    host.fail("DuplicateHandle", Error::Os(8));
    let (port, result) = drive(port.try_clone_native(), &mut host);
    assert!(matches!(result, Err(Error::Os(8))));
    assert!(port.is_open());
    match port.try_clone_native() {
        Step::Perform(_, request) => assert_eq!(
            request,
            Request::Device {
                handle: valid(100),
                command: Command::DuplicateHandle { options: 2 },
            }
        ),
        Step::Done(..) => panic!("the handle has to be duplicated"),
    }
}

#[test]
fn scenario_of_building_and_moving_a_port() {
    let mut host = Host::with_devices(&["PORT1"]);
    let (unbound, result) = drive(serialport::new("", 9600).build(), &mut host);
    assert_eq!(unit(result), Ok(()));
    assert!(!unbound.is_open());
    let port = opened("PORT1", 115_200, &mut host);
    let (port, read) = read_baud_rate(port, &mut host);
    assert_eq!(read, Ok(115_200));
    let (port, result) = drive(port.set_path("PORT2"), &mut host);
    assert_eq!(unit(result), Err(Error::NotFound));
    assert!(!port.is_open());
    assert_eq!(port.path(), Some("PORT2".to_string()));
    assert!(host.open.is_empty());
}

#[test]
fn set_path_on_an_open_port_reopens_it() {
    let mut host = Host::with_devices(&["COM1", "COM2"]);
    let port = opened("COM1", 9600, &mut host);
    host.log.clear();
    let (port, result) = drive(port.set_path("COM2"), &mut host);
    assert_eq!(unit(result), Ok(()));
    assert!(port.is_open());
    assert_eq!(port.path(), Some("COM2".to_string()));
    assert_eq!(
        host.commands(),
        vec!["CloseHandle", "CreateFile", "GetCommState", "SetCommState", "SetCommTimeouts"]
    );
    assert_eq!(host.open, vec![valid(101)]);
}

#[test]
fn set_path_to_nothing_closes_an_open_port() {
    let mut host = Host::with_devices(&["COM1"]);
    let port = opened("COM1", 9600, &mut host);
    let (port, result) = drive(port.set_path(""), &mut host);
    assert_eq!(unit(result), Err(Error::InvalidInput));
    assert!(!port.is_open());
    assert_eq!(port.path(), Some(String::new()));
    assert!(host.open.is_empty());
}

#[test]
fn set_path_that_cannot_close_changes_nothing() {
    let mut host = Host::with_devices(&["COM1", "COM2"]);
    let port = opened("COM1", 9600, &mut host);
    host.fail("CloseHandle", Error::Os(5));
    let (port, result) = drive(port.set_path("COM2"), &mut host);
    assert_eq!(unit(result), Err(Error::Os(5)));
    assert!(port.is_open());
    assert_eq!(port.path(), Some("COM1".to_string()));
}

#[test]
fn read_without_data_times_out() {
    let mut host = Host::with_devices(&["COM1"]);
    let port = opened("COM1", 9600, &mut host);
    let (port, result) = drive(port.read(64), &mut host);
    assert_eq!(transferred(result), Err(Error::TimedOut));
    assert!(port.is_open());
    let (port, result) = drive(port.set_timeout(Timeout::from_millis(100)), &mut host);
    assert_eq!(unit(result), Ok(()));
    let (_, result) = drive(port.read(64), &mut host);
    assert_eq!(transferred(result), Err(Error::TimedOut));
}

#[test]
fn read_of_an_empty_buffer_times_out_too() {
    let mut host = Host::with_devices(&["COM1"]);
    let port = opened("COM1", 9600, &mut host);
    host.input = 10;
    let (_, result) = drive(port.read(0), &mut host);
    assert_eq!(transferred(result), Err(Error::TimedOut));
}

#[test]
fn read_gives_the_bytes_that_came() {
    let mut host = Host::with_devices(&["COM1"]);
    let port = opened("COM1", 9600, &mut host);
    host.input = 10;
    let (port, result) = drive(port.bytes_to_read(), &mut host);
    assert_eq!(queued(result), Ok(10));
    assert_eq!(host.input, 10);
    let (port, result) = drive(port.read(4), &mut host);
    assert_eq!(transferred(result), Ok(4));
    let (port, result) = drive(port.read(64), &mut host);
    assert_eq!(transferred(result), Ok(6));
    let (_, result) = drive(port.bytes_to_read(), &mut host);
    assert_eq!(queued(result), Ok(0));
    assert_eq!(
        host.log[host.log.len() - 2],
        Request::Device { handle: valid(100), command: Command::ReadFile { len: 64 } }
    );
}

#[test]
fn write_reports_what_was_written() {
    let mut host = Host::with_devices(&["COM1"]);
    let port = opened("COM1", 9600, &mut host);
    let (port, result) = drive(port.write(14), &mut host);
    assert_eq!(transferred(result), Ok(14));
    host.accepts = 5;
    let (port, result) = drive(port.write(14), &mut host);
    assert_eq!(transferred(result), Ok(5));
    host.accepts = 0;
    let (port, result) = drive(port.write(14), &mut host);
    assert_eq!(transferred(result), Ok(0));
    host.output = 9;
    let (port, result) = drive(port.bytes_to_write(), &mut host);
    assert_eq!(queued(result), Ok(9));
    let (port, result) = drive(port.flush(), &mut host);
    assert_eq!(unit(result), Ok(()));
    let (_, result) = drive(port.bytes_to_write(), &mut host);
    assert_eq!(queued(result), Ok(0));
}

#[test]
fn transfer_length_is_the_low_32_bits() {
    let mut host = Host::with_devices(&["COM1"]);
    let port = opened("COM1", 9600, &mut host);
    match port.write(0xffff_ffff) {
        Step::Perform(_, request) => assert_eq!(
            request,
            Request::Device {
                handle: valid(100),
                command: Command::WriteFile { len: 0xffff_ffff },
            }
        ),
        Step::Done(..) => panic!("an open port writes"),
    }
}

#[test]
fn clear_discards_the_chosen_buffers() {
    let mut host = Host::with_devices(&["COM1"]);
    let port = opened("COM1", 9600, &mut host);
    host.input = 3;
    host.output = 4;
    let (port, result) = drive(port.clear(ClearBuffer::Input), &mut host);
    assert_eq!(unit(result), Ok(()));
    assert_eq!((host.input, host.output), (0, 4));
    assert_eq!(
        host.log.last(),
        Some(&Request::Device { handle: valid(100), command: Command::PurgeComm { flags: 0x000a } })
    );
    host.input = 3;
    let (port, result) = drive(port.clear(ClearBuffer::Output), &mut host);
    assert_eq!(unit(result), Ok(()));
    assert_eq!((host.input, host.output), (3, 0));
    assert_eq!(
        host.log.last(),
        Some(&Request::Device { handle: valid(100), command: Command::PurgeComm { flags: 0x0005 } })
    );
    host.output = 4;
    let (_, result) = drive(port.clear(ClearBuffer::All), &mut host);
    assert_eq!(unit(result), Ok(()));
    assert_eq!((host.input, host.output), (0, 0));
    assert_eq!(
        host.log.last(),
        Some(&Request::Device { handle: valid(100), command: Command::PurgeComm { flags: 0x000f } })
    );
}

#[test]
fn closed_port_is_not_connected() {
    let mut host = Host::with_devices(&["COM1"]);
    let (port, _) = drive(SerialPortBuilder::new().build(), &mut host);
    let (port, result) = drive(port.read(8), &mut host);
    assert_eq!(transferred(result), Err(Error::NotConnected));
    let (port, result) = drive(port.write(8), &mut host);
    assert_eq!(transferred(result), Err(Error::NotConnected));
    let (port, result) = drive(port.flush(), &mut host);
    assert_eq!(unit(result), Err(Error::NotConnected));
    let (port, result) = drive(port.clear(ClearBuffer::All), &mut host);
    assert_eq!(unit(result), Err(Error::NotConnected));
    let (port, result) = drive(port.bytes_to_read(), &mut host);
    assert_eq!(queued(result), Err(Error::NotConnected));
    let (port, result) = drive(port.bytes_to_write(), &mut host);
    assert_eq!(queued(result), Err(Error::NotConnected));
    let (port, read) = read_baud_rate(port, &mut host);
    assert_eq!(read, Err(Error::NotConnected));
    let (port, read) = read_data_bits(port, &mut host);
    assert_eq!(read, Err(Error::NotConnected));
    let (port, read) = read_parity(port, &mut host);
    assert_eq!(read, Err(Error::NotConnected));
    let (port, read) = read_stop_bits(port, &mut host);
    assert_eq!(read, Err(Error::NotConnected));
    let (port, read) = read_flow_control(port, &mut host);
    assert_eq!(read, Err(Error::NotConnected));
    assert!(!port.is_open());
    assert!(host.log.is_empty());
}

#[test]
fn unknown_values_on_the_device_are_invalid_data() {
    let mut host = Host::with_devices(&["COM1"]);
    let port = opened("COM1", 9600, &mut host);
    host.state.byte_size = 4;
    host.state.parity = 9;
    host.state.stop_bits = 3;
    let (port, read) = read_data_bits(port, &mut host);
    assert_eq!(read, Err(Error::InvalidData));
    let (port, read) = read_parity(port, &mut host);
    assert_eq!(read, Err(Error::InvalidData));
    let (port, read) = read_stop_bits(port, &mut host);
    assert_eq!(read, Err(Error::InvalidData));
    assert!(port.is_open());
}

#[test]
fn reply_of_the_wrong_kind_is_invalid_data() {
    let mut host = Host::with_devices(&["COM1"]);
    let port = opened("COM1", 9600, &mut host);
    let pending = match port.baud_rate() {
        Step::Perform(pending, _) => pending,
        Step::Done(..) => panic!("an open port asks the device"),
    };
    let port = match pending.resume(Reply::Completed) {
        Step::Done(port, result) => {
            assert!(matches!(result, Err(Error::InvalidData)));
            port
        }
        Step::Perform(..) => panic!("nothing is left to do"),
    };
    assert!(port.is_open());
    let pending = match port.read(4) {
        Step::Perform(pending, _) => pending,
        Step::Done(..) => panic!("an open port asks the device"),
    };
    match pending.resume(Reply::Queues { input: 1, output: 1 }) {
        Step::Done(_, result) => assert!(matches!(result, Err(Error::InvalidData))),
        Step::Perform(..) => panic!("nothing is left to do"),
    }
    match serialport::new("COM1", 9600).build() {
        Step::Perform(pending, _) => match pending.resume(Reply::Completed) {
            Step::Done(port, result) => {
                assert!(matches!(result, Err(Error::InvalidData)));
                assert!(!port.is_open());
            }
            Step::Perform(..) => panic!("nothing is left to do"),
        },
        Step::Done(..) => panic!("the device has to be opened"),
    }
}

#[test]
fn reply_of_the_wrong_kind_while_applying_closes_the_port() {
    let mut host = Host::with_devices(&["COM1"]);
    let port = opened("COM1", 9600, &mut host);
    let pending = match port.set_parity(Parity::Odd) {
        Step::Perform(pending, _) => pending,
        Step::Done(..) => panic!("an open port has to apply the setting"),
    };
    let pending = match pending.resume(Reply::Transferred(3)) {
        Step::Perform(pending, request) => {
            assert_eq!(
                request,
                Request::Device { handle: valid(100), command: Command::CloseHandle }
            );
            pending
        }
        Step::Done(..) => panic!("the handle has to be released"),
    };
    match pending.resume(Reply::Completed) {
        Step::Done(port, result) => {
            assert_eq!(unit(result), Err(Error::InvalidData));
            assert!(!port.is_open());
        }
        Step::Perform(..) => panic!("nothing is left to do"),
    }
}

#[test]
fn failure_of_a_reply() {
    assert_eq!(Reply::Failed(Error::TimedOut).to_failure(), Error::TimedOut);
    assert_eq!(Reply::Failed(Error::Os(1167)).to_failure(), Error::Os(1167));
    assert_eq!(Reply::Completed.to_failure(), Error::InvalidData);
    assert_eq!(Reply::Transferred(1).to_failure(), Error::InvalidData);
    assert_eq!(Reply::Handle(valid(1)).to_failure(), Error::InvalidData);
}

#[test]
fn failures_of_the_device_pass_through() {
    let mut host = Host::with_devices(&["COM1"]);
    let port = opened("COM1", 9600, &mut host);
    host.fail("ReadFile", Error::Os(995));
    let (port, result) = drive(port.read(4), &mut host);
    assert_eq!(transferred(result), Err(Error::Os(995)));
    host.fail("WriteFile", Error::PermissionDenied);
    let (port, result) = drive(port.write(4), &mut host);
    assert_eq!(transferred(result), Err(Error::PermissionDenied));
    host.fail("GetCommState", Error::Os(22));
    let (port, read) = read_baud_rate(port, &mut host);
    assert_eq!(read, Err(Error::Os(22)));
    assert!(port.is_open());
}

#[test]
fn available_ports_hands_the_listing_on() {
    let listing = vec![
        SerialPortInfo {
            port_name: "COM3".to_string(),
            port_type: SerialPortType::UsbPort(UsbPortInfo { vid: 0x0403, pid: 0x6001 }),
        },
        SerialPortInfo { port_name: "COM1".to_string(), port_type: SerialPortType::PciPort },
        SerialPortInfo { port_name: "COM8".to_string(), port_type: SerialPortType::BluetoothPort },
        SerialPortInfo { port_name: "COM9".to_string(), port_type: SerialPortType::Unknown },
    ];
    assert_eq!(serialport::available_ports(Ok(listing.clone())), Ok(listing));
    assert_eq!(serialport::available_ports(Ok(Vec::new())), Ok(Vec::new()));
    assert_eq!(serialport::available_ports(Err(Error::PermissionDenied)), Err(Error::PermissionDenied));
}
