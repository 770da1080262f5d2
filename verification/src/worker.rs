//! The ingestion worker's connection/attachment state machine.
//!
//! The worker thread runs an unbounded loop: it drains queued commands,
//! then performs one unit of per-state work (a connection attempt while
//! disconnected, one read attempt while connected). The decisions live
//! here, verified; the loop around them performs the I/O each returned
//! action names and feeds the outcome back in.
use vstd::prelude::*;

use crate::error::{PacketErrorModel, PacketReadError, TransportErrorModel};
use crate::packet::Metric;

verus! {

/// Commands the device itself understands, sent as a single byte.
#[derive(Debug, Clone, Copy, PartialEq, Eq, Structural)]
pub enum RobotCommand {
    CalibrateAmbientInfrared,
    CalibrateReferenceInfrared,
}

/// The wire byte of a device command.
pub open spec fn spec_command_byte(c: RobotCommand) -> u8 {
    match c {
        RobotCommand::CalibrateAmbientInfrared => 0,
        RobotCommand::CalibrateReferenceInfrared => 1,
    }
}

impl RobotCommand {
    /// The single byte written to the transport for this command.
    pub fn command_byte(&self) -> (b: u8)
        ensures
            b == spec_command_byte(*self),
    {
        match self {
            RobotCommand::CalibrateAmbientInfrared => 0,
            RobotCommand::CalibrateReferenceInfrared => 1,
        }
    }
}

/// Where the worker stands with its transport.
#[derive(Debug, Clone, Copy, PartialEq, Eq, Structural)]
pub enum SerialWorkerState {
    /// Connected, and currently pulsing the reset line.
    Resetting,
    /// A transport is open and being read.
    Connected,
    /// No transport; the worker keeps trying to open one.
    Disconnected,
    /// The operator suspended all connection activity.
    Detached,
}

/// Commands the controller sends to the worker.
#[derive(Debug, Clone, Copy, PartialEq, Eq, Structural)]
pub enum SerialWorkerCommand {
    Detach,
    Attach,
    Reset,
    SendCommand(RobotCommand),
}

/// What the loop must do after the machine absorbs a command.
#[derive(Debug, Clone, Copy, PartialEq, Eq, Structural)]
pub enum CommandAction {
    /// Release the transport, notify the consumer, repaint, and block
    /// until the next command arrives.
    ReleaseAndWait,
    /// The command arrived while detached and was ignored.
    IgnoredWhileDetached,
    /// Attach after detach: repaint and resume connection attempts.
    Resume,
    /// An attach arrived while already attached: warn, do nothing.
    WarnAlreadyAttached,
    /// Assert the reset line, wait about a second, deassert it, then
    /// report back through [`WorkerMachine::reset_complete`]. The pulse
    /// blocks the loop deliberately: resets are operator-initiated.
    PulseReset,
    /// A reset arrived while not connected: warn, do nothing.
    WarnResetNotConnected,
    /// Write this byte to the transport and flush.
    WriteCommandByte(u8),
    /// A device command arrived while not connected: warn, do nothing.
    WarnSendNotConnected,
}

/// What the loop must do after one connection attempt.
#[derive(Debug, Clone, Copy, PartialEq, Eq, Structural)]
pub enum ConnectAction {
    /// The port opened: notify the consumer and repaint.
    NotifyConnected,
    /// No device present: sleep about a second and try again.
    RetryAfterDelay,
}

/// What the loop must do after one read attempt.
#[derive(Debug, Clone, Copy, PartialEq, Eq, Structural)]
pub enum ReadAction {
    /// A metric was decoded: forward it to the consumer and repaint.
    ForwardMetric,
    /// The read timed out: nothing happened, read again.
    Ignore,
    /// The device is gone: release the transport and any buffered
    /// partial frame, notify the consumer, repaint.
    DropConnection,
    /// A malformed frame or packet: log it and read on; the state
    /// never changes and the consumer never sees it.
    DiscardFrame,
}

/// The connection/attachment state machine.
///
/// Each method consumes one event and returns the action the loop must
/// perform; the contracts pin down every transition.
pub struct WorkerMachine {
    state: SerialWorkerState,
}

impl View for WorkerMachine {
    type V = SerialWorkerState;

    closed spec fn view(&self) -> SerialWorkerState {
        self.state
    }
}

impl WorkerMachine {
    /// A worker starts disconnected and immediately seeks a device.
    pub fn new() -> (r: Self)
        ensures
            r@ == SerialWorkerState::Disconnected,
    {
        WorkerMachine { state: SerialWorkerState::Disconnected }
    }

    /// The state as published to readers.
    pub fn state(&self) -> (s: SerialWorkerState)
        ensures
            s == self@,
    {
        self.state
    }

    /// Absorb one queued command.
    ///
    /// Detach suspends everything from any state; while detached only
    /// Attach is honored and returns the worker to Disconnected. Reset
    /// and device commands need a live connection. The machine is never
    /// given a command mid-reset: the pulse is synchronous.
    pub fn on_command(&mut self, cmd: &SerialWorkerCommand) -> (a: CommandAction)
        requires
            old(self)@ != SerialWorkerState::Resetting,
        ensures
            old(self)@ == SerialWorkerState::Detached ==> (match cmd {
                SerialWorkerCommand::Attach => final(self)@ == SerialWorkerState::Disconnected
                    && a == CommandAction::Resume,
                _ => final(self)@ == SerialWorkerState::Detached && a
                    == CommandAction::IgnoredWhileDetached,
            }),
            old(self)@ != SerialWorkerState::Detached ==> (match cmd {
                SerialWorkerCommand::Detach => final(self)@ == SerialWorkerState::Detached && a
                    == CommandAction::ReleaseAndWait,
                SerialWorkerCommand::Attach => final(self)@ == old(self)@ && a
                    == CommandAction::WarnAlreadyAttached,
                SerialWorkerCommand::Reset => if old(self)@ == SerialWorkerState::Connected {
                    final(self)@ == SerialWorkerState::Resetting && a == CommandAction::PulseReset
                } else {
                    final(self)@ == old(self)@ && a == CommandAction::WarnResetNotConnected
                },
                SerialWorkerCommand::SendCommand(c) => final(self)@ == old(self)@ && a == (
                if old(self)@ == SerialWorkerState::Connected {
                    CommandAction::WriteCommandByte(spec_command_byte(*c))
                } else {
                    CommandAction::WarnSendNotConnected
                }),
            }),
    {
        match (self.state, cmd) {
            (SerialWorkerState::Detached, SerialWorkerCommand::Attach) => {
                self.state = SerialWorkerState::Disconnected;
                CommandAction::Resume
            },
            (SerialWorkerState::Detached, _) => CommandAction::IgnoredWhileDetached,
            (_, SerialWorkerCommand::Detach) => {
                self.state = SerialWorkerState::Detached;
                CommandAction::ReleaseAndWait
            },
            (_, SerialWorkerCommand::Attach) => CommandAction::WarnAlreadyAttached,
            (SerialWorkerState::Connected, SerialWorkerCommand::Reset) => {
                self.state = SerialWorkerState::Resetting;
                CommandAction::PulseReset
            },
            (_, SerialWorkerCommand::Reset) => CommandAction::WarnResetNotConnected,
            (SerialWorkerState::Connected, SerialWorkerCommand::SendCommand(c)) => {
                CommandAction::WriteCommandByte(c.command_byte())
            },
            (_, SerialWorkerCommand::SendCommand(_)) => CommandAction::WarnSendNotConnected,
        }
    }

    /// The reset pulse has finished: the connection resumes.
    pub fn reset_complete(&mut self)
        requires
            old(self)@ == SerialWorkerState::Resetting,
        ensures
            final(self)@ == SerialWorkerState::Connected,
    {
        self.state = SerialWorkerState::Connected;
    }

    /// Absorb the outcome of one connection attempt: success connects,
    /// an absent device means sleep and retry.
    pub fn on_connect_result(&mut self, opened: bool) -> (a: ConnectAction)
        requires
            old(self)@ == SerialWorkerState::Disconnected,
        ensures
            opened ==> final(self)@ == SerialWorkerState::Connected && a
                == ConnectAction::NotifyConnected,
            !opened ==> final(self)@ == SerialWorkerState::Disconnected && a
                == ConnectAction::RetryAfterDelay,
    {
        if opened {
            self.state = SerialWorkerState::Connected;
            ConnectAction::NotifyConnected
        } else {
            ConnectAction::RetryAfterDelay
        }
    }

    /// Absorb the outcome of one read attempt.
    ///
    /// Only a genuine disconnect changes state; timeouts are silent and
    /// malformed data is discarded without disturbing the connection.
    pub fn on_read_result(&mut self, outcome: &Result<Metric, PacketReadError>) -> (a: ReadAction)
        requires
            old(self)@ == SerialWorkerState::Connected,
        ensures
            outcome is Ok ==> final(self)@ == SerialWorkerState::Connected && a
                == ReadAction::ForwardMetric,
            outcome matches Err(e) ==> (match e@ {
                PacketErrorModel::Transport(TransportErrorModel::TimedOut) => final(self)@
                    == SerialWorkerState::Connected && a == ReadAction::Ignore,
                PacketErrorModel::Transport(TransportErrorModel::SerialPortDisconnected) => (
                final(self)@ == SerialWorkerState::Disconnected && a
                    == ReadAction::DropConnection),
                _ => final(self)@ == SerialWorkerState::Connected && a == ReadAction::DiscardFrame,
            }),
    {
        match outcome {
            Ok(_) => ReadAction::ForwardMetric,
            Err(PacketReadError::Transport(t)) => match t {
                crate::error::TransportError::TimedOut => ReadAction::Ignore,
                crate::error::TransportError::SerialPortDisconnected => {
                    self.state = SerialWorkerState::Disconnected;
                    ReadAction::DropConnection
                },
                crate::error::TransportError::MalformedCOBS(_) => ReadAction::DiscardFrame,
            },
            Err(_) => ReadAction::DiscardFrame,
        }
    }
}

} // verus!
