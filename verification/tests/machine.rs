use kestrel::{
    CommandAction, ConnectAction, MetricValueError, PacketReadError, ReadAction, RobotCommand,
    SerialWorkerCommand, SerialWorkerState, TransportError, WorkerMachine,
};

#[test]
fn state_machine_scenario() {
    let mut m = WorkerMachine::new();
    assert_eq!(m.state(), SerialWorkerState::Disconnected);

    // A successful open connects.
    assert_eq!(m.on_connect_result(true), ConnectAction::NotifyConnected);
    assert_eq!(m.state(), SerialWorkerState::Connected);

    // A permission error on read disconnects.
    let gone: Result<_, _> = Err::<kestrel::Metric, _>(PacketReadError::Transport(
        TransportError::SerialPortDisconnected,
    ));
    assert_eq!(m.on_read_result(&gone), ReadAction::DropConnection);
    assert_eq!(m.state(), SerialWorkerState::Disconnected);

    // An explicit detach suspends everything.
    assert_eq!(m.on_command(&SerialWorkerCommand::Detach), CommandAction::ReleaseAndWait);
    assert_eq!(m.state(), SerialWorkerState::Detached);

    // Attach from detached resumes at disconnected.
    assert_eq!(m.on_command(&SerialWorkerCommand::Attach), CommandAction::Resume);
    assert_eq!(m.state(), SerialWorkerState::Disconnected);
}

#[test]
fn detach_works_from_connected_too() {
    let mut m = WorkerMachine::new();
    m.on_connect_result(true);
    assert_eq!(m.on_command(&SerialWorkerCommand::Detach), CommandAction::ReleaseAndWait);
    assert_eq!(m.state(), SerialWorkerState::Detached);
}

#[test]
fn detached_worker_ignores_everything_but_attach() {
    let mut m = WorkerMachine::new();
    m.on_command(&SerialWorkerCommand::Detach);
    assert_eq!(
        m.on_command(&SerialWorkerCommand::Reset),
        CommandAction::IgnoredWhileDetached
    );
    assert_eq!(
        m.on_command(&SerialWorkerCommand::SendCommand(RobotCommand::CalibrateAmbientInfrared)),
        CommandAction::IgnoredWhileDetached
    );
    assert_eq!(
        m.on_command(&SerialWorkerCommand::Detach),
        CommandAction::IgnoredWhileDetached
    );
    assert_eq!(m.state(), SerialWorkerState::Detached);
}

#[test]
fn failed_open_retries_after_delay() {
    let mut m = WorkerMachine::new();
    assert_eq!(m.on_connect_result(false), ConnectAction::RetryAfterDelay);
    assert_eq!(m.state(), SerialWorkerState::Disconnected);
}

#[test]
fn reset_is_transient_and_needs_a_connection() {
    let mut m = WorkerMachine::new();
    assert_eq!(
        m.on_command(&SerialWorkerCommand::Reset),
        CommandAction::WarnResetNotConnected
    );
    m.on_connect_result(true);
    assert_eq!(m.on_command(&SerialWorkerCommand::Reset), CommandAction::PulseReset);
    assert_eq!(m.state(), SerialWorkerState::Resetting);
    m.reset_complete();
    assert_eq!(m.state(), SerialWorkerState::Connected);
}

#[test]
fn device_commands_need_a_connection() {
    let mut m = WorkerMachine::new();
    assert_eq!(
        m.on_command(&SerialWorkerCommand::SendCommand(RobotCommand::CalibrateAmbientInfrared)),
        CommandAction::WarnSendNotConnected
    );
    m.on_connect_result(true);
    assert_eq!(
        m.on_command(&SerialWorkerCommand::SendCommand(RobotCommand::CalibrateAmbientInfrared)),
        CommandAction::WriteCommandByte(0)
    );
    assert_eq!(
        m.on_command(&SerialWorkerCommand::SendCommand(RobotCommand::CalibrateReferenceInfrared)),
        CommandAction::WriteCommandByte(1)
    );
    assert_eq!(m.state(), SerialWorkerState::Connected);
}

#[test]
fn redundant_attach_warns() {
    let mut m = WorkerMachine::new();
    assert_eq!(
        m.on_command(&SerialWorkerCommand::Attach),
        CommandAction::WarnAlreadyAttached
    );
    assert_eq!(m.state(), SerialWorkerState::Disconnected);
}

#[test]
fn timeouts_and_malformed_data_keep_the_connection() {
    let mut m = WorkerMachine::new();
    m.on_connect_result(true);

    let timeout: Result<kestrel::Metric, _> =
        Err(PacketReadError::Transport(TransportError::TimedOut));
    assert_eq!(m.on_read_result(&timeout), ReadAction::Ignore);
    assert_eq!(m.state(), SerialWorkerState::Connected);

    let malformed: Result<kestrel::Metric, _> = Err(PacketReadError::Transport(
        TransportError::MalformedCOBS(vec![9, 1, 1, 0]),
    ));
    assert_eq!(m.on_read_result(&malformed), ReadAction::DiscardFrame);
    assert_eq!(m.state(), SerialWorkerState::Connected);

    let bad_len: Result<kestrel::Metric, _> =
        Err(PacketReadError::BadPacketLength { expected: Some(8), got: 5 });
    assert_eq!(m.on_read_result(&bad_len), ReadAction::DiscardFrame);

    let poor: Result<kestrel::Metric, _> =
        Err(PacketReadError::PoorLayout { section: 1, packet: vec![] });
    assert_eq!(m.on_read_result(&poor), ReadAction::DiscardFrame);

    let bad_value: Result<kestrel::Metric, _> = Err(PacketReadError::MetricValue(
        MetricValueError::BadLength { expected: 1, got: 2 },
    ));
    assert_eq!(m.on_read_result(&bad_value), ReadAction::DiscardFrame);
    assert_eq!(m.state(), SerialWorkerState::Connected);
}

#[test]
fn command_bytes_are_fixed() {
    assert_eq!(RobotCommand::CalibrateAmbientInfrared.command_byte(), 0);
    assert_eq!(RobotCommand::CalibrateReferenceInfrared.command_byte(), 1);
}
