use vstd::prelude::*;

verus! {

/// A failure reported by the native audio engine, one variant per documented
/// status code.
#[derive(Debug, Clone, Copy, PartialEq, Eq, Structural)]
pub enum Error {
    /// Unknown error (status -1).
    Error,
    /// Invalid arguments (status -2).
    InvalidArgs,
    /// Invalid operation (status -3).
    InvalidOperation,
    /// Out of memory (status -4).
    OutOfMemory,
    /// Out of range (status -5).
    OutOfRange,
    /// Access denied (status -6).
    AccessDenied,
    /// Does not exist (status -7).
    DoesNotExist,
    /// Already exists (status -8).
    AlreadyExists,
    /// Too many open files (status -9).
    TooManyOpenFiles,
    /// Invalid file (status -10).
    InvalidFile,
    /// Too big (status -11).
    TooBig,
    /// Path too long (status -12).
    PathTooLong,
    /// Name too long (status -13).
    NameTooLong,
    /// Not a directory (status -14).
    NotDirectory,
    /// Is a directory (status -15).
    IsDirectory,
    /// Directory not empty (status -16).
    DirectoryNotEmpty,
    /// At end (status -17).
    AtEnd,
    /// No space (status -18).
    NoSpace,
    /// Busy (status -19).
    Busy,
    /// IO error (status -20).
    IOError,
    /// Interrupt (status -21).
    Interrupt,
    /// Unavailable (status -22).
    Unavailable,
    /// Already in use (status -23).
    AlreadyInUse,
    /// Bad address (status -24).
    BadAddress,
    /// Bad seek (status -25).
    BadSeek,
    /// Bad pipe (status -26).
    BadPipe,
    /// Deadlock (status -27).
    Deadlock,
    /// Too many links (status -28).
    TooManyLinks,
    /// Not implemented (status -29).
    NotImplemented,
    /// No message (status -30).
    NoMessage,
    /// Bad message (status -31).
    BadMessage,
    /// No data available (status -32).
    NoDataAvailable,
    /// Invalid data (status -33).
    InvalidData,
    /// Timeout (status -34).
    Timeout,
    /// No network (status -35).
    NoNetwork,
    /// Not unique (status -36).
    NotUnique,
    /// Not a socket (status -37).
    NotSocket,
    /// No address (status -38).
    NoAddress,
    /// Bad protocol (status -39).
    BadProtocol,
    /// Protocol unavailable (status -40).
    ProtocolUnavailable,
    /// Protocol not supported (status -41).
    ProtocolNotSupported,
    /// Protocol family not supported (status -42).
    ProtocolFamilyNotSupported,
    /// Address family not supported (status -43).
    AddressFamilyNotSupported,
    /// Socket not supported (status -44).
    SocketNotSupported,
    /// Connection reset (status -45).
    ConnectionReset,
    /// Already connected (status -46).
    AlreadyConnected,
    /// Not connected (status -47).
    NotConnected,
    /// Connection refused (status -48).
    ConnectionRefused,
    /// No host (status -49).
    NoHost,
    /// In progress (status -50).
    InProgress,
    /// Cancelled (status -51).
    Cancelled,
    /// Memory already mapped (status -52).
    MemoryAlreadyMapped,
    /// CRC mismatch (status -100).
    CrcMismatch,
    /// Format not supported (status -200).
    FormatNotSupported,
    /// Device type not supported (status -201).
    DeviceTypeNotSupported,
    /// Share mode not supported (status -202).
    ShareModeNotSupported,
    /// No backend (status -203).
    NoBackend,
    /// No device (status -204).
    NoDevice,
    /// API not found (status -205).
    ApiNotFound,
    /// Invalid device config (status -206).
    InvalidDeviceConfig,
    /// Loop (status -207).
    Loop,
    /// Backend not enabled (status -208).
    BackendNotEnabled,
    /// Device not initialized (status -300).
    DeviceNotInitialized,
    /// Device already initialized (status -301).
    DeviceAlreadyInitialized,
    /// Device not started (status -302).
    DeviceNotStarted,
    /// Device not stopped (status -303).
    DeviceNotStopped,
    /// Failed to init backend (status -400).
    FailedToInitBackend,
    /// Failed to open backend device (status -401).
    FailedToOpenBackendDevice,
    /// Failed to start backend device (status -402).
    FailedToStartBackendDevice,
    /// Failed to stop backend device (status -403).
    FailedToStopBackendDevice,
}

/// The native status code that stands for `e`.
pub open spec fn code_of(e: Error) -> i32 {
    match e {
        Error::Error => -1i32,
        Error::InvalidArgs => -2i32,
        Error::InvalidOperation => -3i32,
        Error::OutOfMemory => -4i32,
        Error::OutOfRange => -5i32,
        Error::AccessDenied => -6i32,
        Error::DoesNotExist => -7i32,
        Error::AlreadyExists => -8i32,
        Error::TooManyOpenFiles => -9i32,
        Error::InvalidFile => -10i32,
        Error::TooBig => -11i32,
        Error::PathTooLong => -12i32,
        Error::NameTooLong => -13i32,
        Error::NotDirectory => -14i32,
        Error::IsDirectory => -15i32,
        Error::DirectoryNotEmpty => -16i32,
        Error::AtEnd => -17i32,
        Error::NoSpace => -18i32,
        Error::Busy => -19i32,
        Error::IOError => -20i32,
        Error::Interrupt => -21i32,
        Error::Unavailable => -22i32,
        Error::AlreadyInUse => -23i32,
        Error::BadAddress => -24i32,
        Error::BadSeek => -25i32,
        Error::BadPipe => -26i32,
        Error::Deadlock => -27i32,
        Error::TooManyLinks => -28i32,
        Error::NotImplemented => -29i32,
        Error::NoMessage => -30i32,
        Error::BadMessage => -31i32,
        Error::NoDataAvailable => -32i32,
        Error::InvalidData => -33i32,
        Error::Timeout => -34i32,
        Error::NoNetwork => -35i32,
        Error::NotUnique => -36i32,
        Error::NotSocket => -37i32,
        Error::NoAddress => -38i32,
        Error::BadProtocol => -39i32,
        Error::ProtocolUnavailable => -40i32,
        Error::ProtocolNotSupported => -41i32,
        Error::ProtocolFamilyNotSupported => -42i32,
        Error::AddressFamilyNotSupported => -43i32,
        Error::SocketNotSupported => -44i32,
        Error::ConnectionReset => -45i32,
        Error::AlreadyConnected => -46i32,
        Error::NotConnected => -47i32,
        Error::ConnectionRefused => -48i32,
        Error::NoHost => -49i32,
        Error::InProgress => -50i32,
        Error::Cancelled => -51i32,
        Error::MemoryAlreadyMapped => -52i32,
        Error::CrcMismatch => -100i32,
        Error::FormatNotSupported => -200i32,
        Error::DeviceTypeNotSupported => -201i32,
        Error::ShareModeNotSupported => -202i32,
        Error::NoBackend => -203i32,
        Error::NoDevice => -204i32,
        Error::ApiNotFound => -205i32,
        Error::InvalidDeviceConfig => -206i32,
        Error::Loop => -207i32,
        Error::BackendNotEnabled => -208i32,
        Error::DeviceNotInitialized => -300i32,
        Error::DeviceAlreadyInitialized => -301i32,
        Error::DeviceNotStarted => -302i32,
        Error::DeviceNotStopped => -303i32,
        Error::FailedToInitBackend => -400i32,
        Error::FailedToOpenBackendDevice => -401i32,
        Error::FailedToStartBackendDevice => -402i32,
        Error::FailedToStopBackendDevice => -403i32,
    }
}

/// The human-readable description of `e`.
pub open spec fn message_of(e: Error) -> &'static str {
    match e {
        Error::Error => "Unknown error",
        Error::InvalidArgs => "Invalid arguments",
        Error::InvalidOperation => "Invalid operation",
        Error::OutOfMemory => "Out of memory",
        Error::OutOfRange => "Out of range",
        Error::AccessDenied => "Access denied",
        Error::DoesNotExist => "Does not exist",
        Error::AlreadyExists => "Already exists",
        Error::TooManyOpenFiles => "Too many open files",
        Error::InvalidFile => "Invalid file",
        Error::TooBig => "Too big",
        Error::PathTooLong => "Path too long",
        Error::NameTooLong => "Name too long",
        Error::NotDirectory => "Not a directory",
        Error::IsDirectory => "Is a directory",
        Error::DirectoryNotEmpty => "Directory not empty",
        Error::AtEnd => "At end",
        Error::NoSpace => "No space",
        Error::Busy => "Busy",
        Error::IOError => "IO error",
        Error::Interrupt => "Interrupt",
        Error::Unavailable => "Unavailable",
        Error::AlreadyInUse => "Already in use",
        Error::BadAddress => "Bad address",
        Error::BadSeek => "Bad seek",
        Error::BadPipe => "Bad pipe",
        Error::Deadlock => "Deadlock",
        Error::TooManyLinks => "Too many links",
        Error::NotImplemented => "Not implemented",
        Error::NoMessage => "No message",
        Error::BadMessage => "Bad message",
        Error::NoDataAvailable => "No data available",
        Error::InvalidData => "Invalid data",
        Error::Timeout => "Timeout",
        Error::NoNetwork => "No network",
        Error::NotUnique => "Not unique",
        Error::NotSocket => "Not a socket",
        Error::NoAddress => "No address",
        Error::BadProtocol => "Bad protocol",
        Error::ProtocolUnavailable => "Protocol unavailable",
        Error::ProtocolNotSupported => "Protocol not supported",
        Error::ProtocolFamilyNotSupported => "Protocol family not supported",
        Error::AddressFamilyNotSupported => "Address family not supported",
        Error::SocketNotSupported => "Socket not supported",
        Error::ConnectionReset => "Connection reset",
        Error::AlreadyConnected => "Already connected",
        Error::NotConnected => "Not connected",
        Error::ConnectionRefused => "Connection refused",
        Error::NoHost => "No host",
        Error::InProgress => "In progress",
        Error::Cancelled => "Cancelled",
        Error::MemoryAlreadyMapped => "Memory already mapped",
        Error::CrcMismatch => "CRC mismatch",
        Error::FormatNotSupported => "Format not supported",
        Error::DeviceTypeNotSupported => "Device type not supported",
        Error::ShareModeNotSupported => "Share mode not supported",
        Error::NoBackend => "No backend",
        Error::NoDevice => "No device",
        Error::ApiNotFound => "API not found",
        Error::InvalidDeviceConfig => "Invalid device config",
        Error::Loop => "Loop",
        Error::BackendNotEnabled => "Backend not enabled",
        Error::DeviceNotInitialized => "Device not initialized",
        Error::DeviceAlreadyInitialized => "Device already initialized",
        Error::DeviceNotStarted => "Device not started",
        Error::DeviceNotStopped => "Device not stopped",
        Error::FailedToInitBackend => "Failed to init backend",
        Error::FailedToOpenBackendDevice => "Failed to open backend device",
        Error::FailedToStartBackendDevice => "Failed to start backend device",
        Error::FailedToStopBackendDevice => "Failed to stop backend device",
    }
}

/// Whether some variant stands for `code`.
pub open spec fn is_documented(code: i32) -> bool {
    exists|e: Error| #[trigger] code_of(e) == code
}

/// What a native status code means: `Ok` for zero, the variant that stands
/// for a documented code, and the generic `Error::Error` for any other code.
pub open spec fn outcome_of(code: i32) -> Result<(), Error> {
    if code == 0 {
        Ok(())
    } else if is_documented(code) {
        Err(choose|e: Error| #[trigger] code_of(e) == code)
    } else {
        Err(Error::Error)
    }
}

/// No two variants share a status code.
pub proof fn lemma_code_of_injective(a: Error, b: Error)
    requires
        code_of(a) == code_of(b),
    ensures
        a == b,
{
}

/// Reading back the code of any variant gives that variant again: no
/// documented code is zero, and none falls to the generic fallback.
pub proof fn lemma_code_round_trip(e: Error)
    ensures
        is_documented(code_of(e)),
        outcome_of(code_of(e)) == Err::<(), Error>(e),
{
    assert forall|a: Error, b: Error| code_of(a) == code_of(b) implies a == b by {
        lemma_code_of_injective(a, b);
    }
    assert(code_of(e) != 0);
}

impl Error {
    /// Maps a native status code to its outcome.
    pub fn from_i32(code: i32) -> (r: Result<(), Error>)
        ensures
            r == outcome_of(code),
            code == 0 ==> r == Ok::<(), Error>(()),
            forall|e: Error| code_of(e) == code ==> r == Err::<(), Error>(e),
            code != 0 && !is_documented(code) ==> r == Err::<(), Error>(Error::Error),
    {
        proof {
            assert forall|a: Error, b: Error| code_of(a) == code_of(b) implies a == b by {
                lemma_code_of_injective(a, b);
            }
        }
        let r = match code {
            0 => Ok(()),
            -1 => Err(Error::Error),
            -2 => Err(Error::InvalidArgs),
            -3 => Err(Error::InvalidOperation),
            -4 => Err(Error::OutOfMemory),
            -5 => Err(Error::OutOfRange),
            -6 => Err(Error::AccessDenied),
            -7 => Err(Error::DoesNotExist),
            -8 => Err(Error::AlreadyExists),
            -9 => Err(Error::TooManyOpenFiles),
            -10 => Err(Error::InvalidFile),
            -11 => Err(Error::TooBig),
            -12 => Err(Error::PathTooLong),
            -13 => Err(Error::NameTooLong),
            -14 => Err(Error::NotDirectory),
            -15 => Err(Error::IsDirectory),
            -16 => Err(Error::DirectoryNotEmpty),
            -17 => Err(Error::AtEnd),
            -18 => Err(Error::NoSpace),
            -19 => Err(Error::Busy),
            -20 => Err(Error::IOError),
            -21 => Err(Error::Interrupt),
            -22 => Err(Error::Unavailable),
            -23 => Err(Error::AlreadyInUse),
            -24 => Err(Error::BadAddress),
            -25 => Err(Error::BadSeek),
            -26 => Err(Error::BadPipe),
            -27 => Err(Error::Deadlock),
            -28 => Err(Error::TooManyLinks),
            -29 => Err(Error::NotImplemented),
            -30 => Err(Error::NoMessage),
            -31 => Err(Error::BadMessage),
            -32 => Err(Error::NoDataAvailable),
            -33 => Err(Error::InvalidData),
            -34 => Err(Error::Timeout),
            -35 => Err(Error::NoNetwork),
            -36 => Err(Error::NotUnique),
            -37 => Err(Error::NotSocket),
            -38 => Err(Error::NoAddress),
            -39 => Err(Error::BadProtocol),
            -40 => Err(Error::ProtocolUnavailable),
            -41 => Err(Error::ProtocolNotSupported),
            -42 => Err(Error::ProtocolFamilyNotSupported),
            -43 => Err(Error::AddressFamilyNotSupported),
            -44 => Err(Error::SocketNotSupported),
            -45 => Err(Error::ConnectionReset),
            -46 => Err(Error::AlreadyConnected),
            -47 => Err(Error::NotConnected),
            -48 => Err(Error::ConnectionRefused),
            -49 => Err(Error::NoHost),
            -50 => Err(Error::InProgress),
            -51 => Err(Error::Cancelled),
            -52 => Err(Error::MemoryAlreadyMapped),
            -100 => Err(Error::CrcMismatch),
            -200 => Err(Error::FormatNotSupported),
            -201 => Err(Error::DeviceTypeNotSupported),
            -202 => Err(Error::ShareModeNotSupported),
            -203 => Err(Error::NoBackend),
            -204 => Err(Error::NoDevice),
            -205 => Err(Error::ApiNotFound),
            -206 => Err(Error::InvalidDeviceConfig),
            -207 => Err(Error::Loop),
            -208 => Err(Error::BackendNotEnabled),
            -300 => Err(Error::DeviceNotInitialized),
            -301 => Err(Error::DeviceAlreadyInitialized),
            -302 => Err(Error::DeviceNotStarted),
            -303 => Err(Error::DeviceNotStopped),
            -400 => Err(Error::FailedToInitBackend),
            -401 => Err(Error::FailedToOpenBackendDevice),
            -402 => Err(Error::FailedToStartBackendDevice),
            -403 => Err(Error::FailedToStopBackendDevice),
            _ => Err(Error::Error),
        };
        proof {
            if let Err(e) = r {
                if e != Error::Error {
                    assert(code_of(e) == code);
                }
            }
        }
        r
    }

    /// The native status code of this error.
    pub fn as_i32(&self) -> (r: i32)
        ensures
            r == code_of(*self),
    {
        match self {
            Error::Error => -1,
            Error::InvalidArgs => -2,
            Error::InvalidOperation => -3,
            Error::OutOfMemory => -4,
            Error::OutOfRange => -5,
            Error::AccessDenied => -6,
            Error::DoesNotExist => -7,
            Error::AlreadyExists => -8,
            Error::TooManyOpenFiles => -9,
            Error::InvalidFile => -10,
            Error::TooBig => -11,
            Error::PathTooLong => -12,
            Error::NameTooLong => -13,
            Error::NotDirectory => -14,
            Error::IsDirectory => -15,
            Error::DirectoryNotEmpty => -16,
            Error::AtEnd => -17,
            Error::NoSpace => -18,
            Error::Busy => -19,
            Error::IOError => -20,
            Error::Interrupt => -21,
            Error::Unavailable => -22,
            Error::AlreadyInUse => -23,
            Error::BadAddress => -24,
            Error::BadSeek => -25,
            Error::BadPipe => -26,
            Error::Deadlock => -27,
            Error::TooManyLinks => -28,
            Error::NotImplemented => -29,
            Error::NoMessage => -30,
            Error::BadMessage => -31,
            Error::NoDataAvailable => -32,
            Error::InvalidData => -33,
            Error::Timeout => -34,
            Error::NoNetwork => -35,
            Error::NotUnique => -36,
            Error::NotSocket => -37,
            Error::NoAddress => -38,
            Error::BadProtocol => -39,
            Error::ProtocolUnavailable => -40,
            Error::ProtocolNotSupported => -41,
            Error::ProtocolFamilyNotSupported => -42,
            Error::AddressFamilyNotSupported => -43,
            Error::SocketNotSupported => -44,
            Error::ConnectionReset => -45,
            Error::AlreadyConnected => -46,
            Error::NotConnected => -47,
            Error::ConnectionRefused => -48,
            Error::NoHost => -49,
            Error::InProgress => -50,
            Error::Cancelled => -51,
            Error::MemoryAlreadyMapped => -52,
            Error::CrcMismatch => -100,
            Error::FormatNotSupported => -200,
            Error::DeviceTypeNotSupported => -201,
            Error::ShareModeNotSupported => -202,
            Error::NoBackend => -203,
            Error::NoDevice => -204,
            Error::ApiNotFound => -205,
            Error::InvalidDeviceConfig => -206,
            Error::Loop => -207,
            Error::BackendNotEnabled => -208,
            Error::DeviceNotInitialized => -300,
            Error::DeviceAlreadyInitialized => -301,
            Error::DeviceNotStarted => -302,
            Error::DeviceNotStopped => -303,
            Error::FailedToInitBackend => -400,
            Error::FailedToOpenBackendDevice => -401,
            Error::FailedToStartBackendDevice => -402,
            Error::FailedToStopBackendDevice => -403,
        }
    }

    /// The human-readable description of this error.
    pub fn message(&self) -> (r: &'static str)
        ensures
            r == message_of(*self),
    {
        match self {
            Error::Error => "Unknown error",
            Error::InvalidArgs => "Invalid arguments",
            Error::InvalidOperation => "Invalid operation",
            Error::OutOfMemory => "Out of memory",
            Error::OutOfRange => "Out of range",
            Error::AccessDenied => "Access denied",
            Error::DoesNotExist => "Does not exist",
            Error::AlreadyExists => "Already exists",
            Error::TooManyOpenFiles => "Too many open files",
            Error::InvalidFile => "Invalid file",
            Error::TooBig => "Too big",
            Error::PathTooLong => "Path too long",
            Error::NameTooLong => "Name too long",
            Error::NotDirectory => "Not a directory",
            Error::IsDirectory => "Is a directory",
            Error::DirectoryNotEmpty => "Directory not empty",
            Error::AtEnd => "At end",
            Error::NoSpace => "No space",
            Error::Busy => "Busy",
            Error::IOError => "IO error",
            Error::Interrupt => "Interrupt",
            Error::Unavailable => "Unavailable",
            Error::AlreadyInUse => "Already in use",
            Error::BadAddress => "Bad address",
            Error::BadSeek => "Bad seek",
            Error::BadPipe => "Bad pipe",
            Error::Deadlock => "Deadlock",
            Error::TooManyLinks => "Too many links",
            Error::NotImplemented => "Not implemented",
            Error::NoMessage => "No message",
            Error::BadMessage => "Bad message",
            Error::NoDataAvailable => "No data available",
            Error::InvalidData => "Invalid data",
            Error::Timeout => "Timeout",
            Error::NoNetwork => "No network",
            Error::NotUnique => "Not unique",
            Error::NotSocket => "Not a socket",
            Error::NoAddress => "No address",
            Error::BadProtocol => "Bad protocol",
            Error::ProtocolUnavailable => "Protocol unavailable",
            Error::ProtocolNotSupported => "Protocol not supported",
            Error::ProtocolFamilyNotSupported => "Protocol family not supported",
            Error::AddressFamilyNotSupported => "Address family not supported",
            Error::SocketNotSupported => "Socket not supported",
            Error::ConnectionReset => "Connection reset",
            Error::AlreadyConnected => "Already connected",
            Error::NotConnected => "Not connected",
            Error::ConnectionRefused => "Connection refused",
            Error::NoHost => "No host",
            Error::InProgress => "In progress",
            Error::Cancelled => "Cancelled",
            Error::MemoryAlreadyMapped => "Memory already mapped",
            Error::CrcMismatch => "CRC mismatch",
            Error::FormatNotSupported => "Format not supported",
            Error::DeviceTypeNotSupported => "Device type not supported",
            Error::ShareModeNotSupported => "Share mode not supported",
            Error::NoBackend => "No backend",
            Error::NoDevice => "No device",
            Error::ApiNotFound => "API not found",
            Error::InvalidDeviceConfig => "Invalid device config",
            Error::Loop => "Loop",
            Error::BackendNotEnabled => "Backend not enabled",
            Error::DeviceNotInitialized => "Device not initialized",
            Error::DeviceAlreadyInitialized => "Device already initialized",
            Error::DeviceNotStarted => "Device not started",
            Error::DeviceNotStopped => "Device not stopped",
            Error::FailedToInitBackend => "Failed to init backend",
            Error::FailedToOpenBackendDevice => "Failed to open backend device",
            Error::FailedToStartBackendDevice => "Failed to start backend device",
            Error::FailedToStopBackendDevice => "Failed to stop backend device",
        }
    }
}

} // verus!
