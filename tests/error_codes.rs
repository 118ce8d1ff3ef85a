use ample::audio::error::Error;
use ample::error::{Error as CommandError, ErrorKind};

fn table() -> Vec<(i32, Error, &'static str)> {
    vec![
        (-1, Error::Error, "Unknown error"),
        (-2, Error::InvalidArgs, "Invalid arguments"),
        (-3, Error::InvalidOperation, "Invalid operation"),
        (-4, Error::OutOfMemory, "Out of memory"),
        (-5, Error::OutOfRange, "Out of range"),
        (-6, Error::AccessDenied, "Access denied"),
        (-7, Error::DoesNotExist, "Does not exist"),
        (-8, Error::AlreadyExists, "Already exists"),
        (-9, Error::TooManyOpenFiles, "Too many open files"),
        (-10, Error::InvalidFile, "Invalid file"),
        (-11, Error::TooBig, "Too big"),
        (-12, Error::PathTooLong, "Path too long"),
        (-13, Error::NameTooLong, "Name too long"),
        (-14, Error::NotDirectory, "Not a directory"),
        (-15, Error::IsDirectory, "Is a directory"),
        (-16, Error::DirectoryNotEmpty, "Directory not empty"),
        (-17, Error::AtEnd, "At end"),
        (-18, Error::NoSpace, "No space"),
        (-19, Error::Busy, "Busy"),
        (-20, Error::IOError, "IO error"),
        (-21, Error::Interrupt, "Interrupt"),
        (-22, Error::Unavailable, "Unavailable"),
        (-23, Error::AlreadyInUse, "Already in use"),
        (-24, Error::BadAddress, "Bad address"),
        (-25, Error::BadSeek, "Bad seek"),
        (-26, Error::BadPipe, "Bad pipe"),
        (-27, Error::Deadlock, "Deadlock"),
        (-28, Error::TooManyLinks, "Too many links"),
        (-29, Error::NotImplemented, "Not implemented"),
        (-30, Error::NoMessage, "No message"),
        (-31, Error::BadMessage, "Bad message"),
        (-32, Error::NoDataAvailable, "No data available"),
        (-33, Error::InvalidData, "Invalid data"),
        (-34, Error::Timeout, "Timeout"),
        (-35, Error::NoNetwork, "No network"),
        (-36, Error::NotUnique, "Not unique"),
        (-37, Error::NotSocket, "Not a socket"),
        (-38, Error::NoAddress, "No address"),
        (-39, Error::BadProtocol, "Bad protocol"),
        (-40, Error::ProtocolUnavailable, "Protocol unavailable"),
        (-41, Error::ProtocolNotSupported, "Protocol not supported"),
        (-42, Error::ProtocolFamilyNotSupported, "Protocol family not supported"),
        (-43, Error::AddressFamilyNotSupported, "Address family not supported"),
        (-44, Error::SocketNotSupported, "Socket not supported"),
        (-45, Error::ConnectionReset, "Connection reset"),
        (-46, Error::AlreadyConnected, "Already connected"),
        (-47, Error::NotConnected, "Not connected"),
        (-48, Error::ConnectionRefused, "Connection refused"),
        (-49, Error::NoHost, "No host"),
        (-50, Error::InProgress, "In progress"),
        (-51, Error::Cancelled, "Cancelled"),
        (-52, Error::MemoryAlreadyMapped, "Memory already mapped"),
        (-100, Error::CrcMismatch, "CRC mismatch"),
        (-200, Error::FormatNotSupported, "Format not supported"),
        (-201, Error::DeviceTypeNotSupported, "Device type not supported"),
        (-202, Error::ShareModeNotSupported, "Share mode not supported"),
        (-203, Error::NoBackend, "No backend"),
        (-204, Error::NoDevice, "No device"),
        (-205, Error::ApiNotFound, "API not found"),
        (-206, Error::InvalidDeviceConfig, "Invalid device config"),
        (-207, Error::Loop, "Loop"),
        (-208, Error::BackendNotEnabled, "Backend not enabled"),
        (-300, Error::DeviceNotInitialized, "Device not initialized"),
        (-301, Error::DeviceAlreadyInitialized, "Device already initialized"),
        (-302, Error::DeviceNotStarted, "Device not started"),
        (-303, Error::DeviceNotStopped, "Device not stopped"),
        (-400, Error::FailedToInitBackend, "Failed to init backend"),
        (-401, Error::FailedToOpenBackendDevice, "Failed to open backend device"),
        (-402, Error::FailedToStartBackendDevice, "Failed to start backend device"),
        (-403, Error::FailedToStopBackendDevice, "Failed to stop backend device"),
    ]
}

#[test]
fn zero_is_success() {
    assert_eq!(Error::from_i32(0), Ok(()));
}

#[test]
fn every_documented_code_maps_to_its_variant() {
    for (code, variant, _) in table() {
        assert_eq!(Error::from_i32(code), Err(variant), "code {}", code);
    }
}

#[test]
fn every_variant_reports_its_code() {
    for (code, variant, _) in table() {
        assert_eq!(variant.as_i32(), code);
        assert_eq!(Error::from_i32(variant.as_i32()), Err(variant));
    }
}

#[test]
fn table_is_complete() {
    let rows = table();
    assert_eq!(rows.len(), 70);
    for i in 0..rows.len() {
        for j in (i + 1)..rows.len() {
            assert_ne!(rows[i].0, rows[j].0);
            assert_ne!(rows[i].1, rows[j].1);
        }
    }
}

#[test]
fn undocumented_codes_fall_back_to_generic_error() {
    for code in [1, 7, 100, -53, -99, -101, -199, -209, -299, -304, -399, -404, -1000, i32::MIN, i32::MAX] {
        assert_eq!(Error::from_i32(code), Err(Error::Error), "code {}", code);
    }
}

#[test]
fn generic_error_code_maps_to_generic_error() {
    assert_eq!(Error::from_i32(-1), Err(Error::Error));
}

#[test]
fn messages_describe_each_variant() {
    for (_, variant, message) in table() {
        assert_eq!(variant.message(), message);
    }
    assert_eq!(Error::NoDevice.message(), "No device");
    assert_eq!(Error::CrcMismatch.message(), "CRC mismatch");
}

#[test]
fn command_error_from_audio_error() {
    let e = CommandError::from_audio(Error::InvalidFile);
    assert_eq!(e.kind, ErrorKind::Audio);
    assert_eq!(e.message, "Invalid file");
}
