//! Error kinds of building and, later, of running a virtual machine.

use vstd::prelude::*;

verus! {

#[verifier::external_type_specification]
#[verifier::external_body]
pub struct ExIoError(std::io::Error);

/// Relies on `<std::io::Error as ToString>::to_string`: the error's own message.
#[verifier::external_body]
fn io_error_text(e: &std::io::Error) -> String {
    e.to_string()
}

/// Why the QEMU command line could not be built or the process not started.
#[derive(Debug)]
pub enum VMQemuProcessStartError {
    NoMachineType,
    ErrorBuildingCommandLine,
    IoError(std::io::Error),
}

impl VMQemuProcessStartError {
    /// A short description of the error.
    pub fn message(&self) -> (r: String)
        ensures
            self is NoMachineType ==> r@ == "no QEMU machine type specified"@,
            self is ErrorBuildingCommandLine ==> r@ == "error building QEMU command line from devices"@,
    {
        match self {
            VMQemuProcessStartError::NoMachineType => String::from_str("no QEMU machine type specified"),
            VMQemuProcessStartError::ErrorBuildingCommandLine => String::from_str(
                "error building QEMU command line from devices",
            ),
            VMQemuProcessStartError::IoError(e) => io_error_text(e),
        }
    }
}

/// Why the control channel (QMP) could not be reached.
#[derive(Debug)]
pub enum VMQmpConnectionError {
    IoError(std::io::Error),
}

impl VMQmpConnectionError {
    /// A short description of the error.
    pub fn message(&self) -> String {
        match self {
            VMQmpConnectionError::IoError(e) => io_error_text(e),
        }
    }
}

/// Why the control channel's handshake failed.
#[derive(Debug)]
pub enum VMQmpHandshakeError {
    IoError(std::io::Error),
}

impl VMQmpHandshakeError {
    /// A short description of the error.
    pub fn message(&self) -> String {
        match self {
            VMQmpHandshakeError::IoError(e) => io_error_text(e),
        }
    }
}

/// Why the peer-to-peer management session could not be opened.
#[derive(Debug)]
pub enum VMDbusConnectionError {
    IoError(std::io::Error),
}

impl VMDbusConnectionError {
    /// A short description of the error.
    pub fn message(&self) -> String {
        match self {
            VMDbusConnectionError::IoError(e) => io_error_text(e),
        }
    }
}

/// Why a virtual machine could not be brought up, by stage.
#[derive(Debug)]
pub enum VMStartError {
    /// The QEMU process could not be started.
    QemuProcessStartFailure(VMQemuProcessStartError),
    /// The control channel could not be reached.
    QmpConnectionFailure(VMQmpConnectionError),
    /// The control channel's handshake failed.
    QmpHandshakeFailure(VMQmpHandshakeError),
    /// The management session could not be opened.
    DbusConnectionFailure(VMDbusConnectionError),
}

impl VMStartError {
    /// A short description of the stage that failed.
    pub fn message(&self) -> (r: String)
        ensures
            self is QemuProcessStartFailure ==> r@ == "failure starting QEMU process"@,
            self is QmpConnectionFailure ==> r@ == "failure connecting to QMP"@,
            self is QmpHandshakeFailure ==> r@ == "failure handshaking with QMP server"@,
            self is DbusConnectionFailure ==> r@ == "failure initiating p2p D-Bus connection"@,
    {
        match self {
            VMStartError::QemuProcessStartFailure(_) => String::from_str("failure starting QEMU process"),
            VMStartError::QmpConnectionFailure(_) => String::from_str("failure connecting to QMP"),
            VMStartError::QmpHandshakeFailure(_) => String::from_str(
                "failure handshaking with QMP server",
            ),
            VMStartError::DbusConnectionFailure(_) => String::from_str(
                "failure initiating p2p D-Bus connection",
            ),
        }
    }
}

/// Why a virtual machine could not be created.
#[derive(Debug, PartialEq, Eq)]
pub enum VMCreateError {
    /// The name holds a whitespace character.
    InvalidName,
}

impl VMCreateError {
    /// A short description of the error.
    pub fn message(&self) -> (r: String)
        ensures
            r@ == "invalid name characters present"@,
    {
        String::from_str("invalid name characters present")
    }
}

/// Where a virtual machine is in its life.
#[derive(Debug, Clone, Copy, PartialEq, Eq)]
pub enum VMState {
    /// Not running.
    Stopped,
    /// Being started.
    Starting,
    /// Running.
    Started,
    /// Being stopped.
    Stopping,
}

} // verus!
