//! UEFI status codes, as they read on a 64-bit platform.
use vstd::prelude::*;

verus! {

/// Status code returned by every firmware service.
pub type EfiStatus = u64;

/// The operation completed successfully.
pub const EFI_SUCCESS: EfiStatus = 0;

/// Error codes have the high bit set; warnings have it clear.
pub const ERROR_CODE_MASK: EfiStatus = 0x8000_0000_0000_0000;

/// The image failed to load.
pub const EFI_LOAD_ERROR: EfiStatus = 0x8000_0000_0000_0001;

/// A parameter was incorrect.
pub const EFI_INVALID_PARAMETER: EfiStatus = 0x8000_0000_0000_0002;

/// The operation is not supported.
pub const EFI_UNSUPPORTED: EfiStatus = 0x8000_0000_0000_0003;

/// The buffer was not the proper size for the request.
pub const EFI_BAD_BUFFER_SIZE: EfiStatus = 0x8000_0000_0000_0004;

/// The buffer is not large enough to hold the requested data; the required
/// size is returned in the appropriate parameter.
pub const EFI_BUFFER_TOO_SMALL: EfiStatus = 0x8000_0000_0000_0005;

/// There is no data pending upon return.
pub const EFI_NOT_READY: EfiStatus = 0x8000_0000_0000_0006;

/// The physical device reported an error while attempting the operation.
pub const EFI_DEVICE_ERROR: EfiStatus = 0x8000_0000_0000_0007;

/// The device cannot be written to.
pub const EFI_WRITE_PROTECTED: EfiStatus = 0x8000_0000_0000_0008;

/// A resource has run out.
pub const EFI_OUT_OF_RESOURCES: EfiStatus = 0x8000_0000_0000_0009;

/// An inconsistency was detected on the file system.
pub const EFI_VOLUME_CORRUPTED: EfiStatus = 0x8000_0000_0000_000a;

/// There is no more space on the file system.
pub const EFI_VOLUME_FULL: EfiStatus = 0x8000_0000_0000_000b;

/// The device does not contain any medium to perform the operation.
pub const EFI_NO_MEDIA: EfiStatus = 0x8000_0000_0000_000c;

/// The medium in the device has changed since the last access.
pub const EFI_MEDIA_CHANGED: EfiStatus = 0x8000_0000_0000_000d;

/// The item was not found.
pub const EFI_NOT_FOUND: EfiStatus = 0x8000_0000_0000_000e;

/// Access was denied.
pub const EFI_ACCESS_DENIED: EfiStatus = 0x8000_0000_0000_000f;

/// The server was not found or did not respond to the request.
pub const EFI_NO_RESPONSE: EfiStatus = 0x8000_0000_0000_0010;

/// A mapping to a device does not exist.
pub const EFI_NO_MAPPING: EfiStatus = 0x8000_0000_0000_0011;

/// The timeout time expired.
pub const EFI_TIMEOUT: EfiStatus = 0x8000_0000_0000_0012;

/// The protocol has not been started.
pub const EFI_NOT_STARTED: EfiStatus = 0x8000_0000_0000_0013;

/// The protocol has already been started.
pub const EFI_ALREADY_STARTED: EfiStatus = 0x8000_0000_0000_0014;

/// The operation was aborted.
pub const EFI_ABORTED: EfiStatus = 0x8000_0000_0000_0015;

/// An ICMP error occurred during the network operation.
pub const EFI_ICMP_ERROR: EfiStatus = 0x8000_0000_0000_0016;

/// A TFTP error occurred during the network operation.
pub const EFI_TFTP_ERROR: EfiStatus = 0x8000_0000_0000_0017;

/// A protocol error occurred during the network operation.
pub const EFI_PROTOCOL_ERROR: EfiStatus = 0x8000_0000_0000_0018;

/// The function met an internal version that does not fit the version
/// the caller asked for.
pub const EFI_INCOMPATIBLE_VERSION: EfiStatus = 0x8000_0000_0000_0019;

/// The function was not performed due to a security violation.
pub const EFI_SECURITY_VIOLATION: EfiStatus = 0x8000_0000_0000_001a;

/// A CRC error was detected.
pub const EFI_CRC_ERROR: EfiStatus = 0x8000_0000_0000_001b;

/// Beginning or end of media was reached.
pub const EFI_END_OF_MEDIA: EfiStatus = 0x8000_0000_0000_001c;

/// The end of the file was reached.
pub const EFI_END_OF_FILE: EfiStatus = 0x8000_0000_0000_001f;

/// The language specified was invalid.
pub const EFI_INVALID_LANGUAGE: EfiStatus = 0x8000_0000_0000_0020;

/// The security status of the data is unknown or compromised.
pub const EFI_COMPROMISED_DATA: EfiStatus = 0x8000_0000_0000_0021;

/// There is an address conflict in the address allocation.
pub const EFI_IP_ADDRESS_CONFLICT: EfiStatus = 0x8000_0000_0000_0022;

/// An HTTP error occurred during the network operation.
pub const EFI_HTTP_ERROR: EfiStatus = 0x8000_0000_0000_0023;

/// The string contained characters that the device could not render.
pub const EFI_WARN_UNKNOWN_GLYPH: EfiStatus = 1;

/// The handle was closed, but the file was not deleted.
pub const EFI_WARN_DELETE_FAILURE: EfiStatus = 2;

/// The handle was closed, but the data to the file was not flushed properly.
pub const EFI_WARN_WRITE_FAILURE: EfiStatus = 3;

/// The resulting buffer was too small, and the data was truncated.
pub const EFI_WARN_BUFFER_TOO_SMALL: EfiStatus = 4;

/// The data has not been updated within the time that local policy sets.
pub const EFI_WARN_STALE_DATA: EfiStatus = 5;

/// The resulting buffer contains a file system.
pub const EFI_WARN_FILE_SYSTEM: EfiStatus = 6;

/// The operation will be processed across a system reset.
pub const EFI_WARN_RESET_REQUIRED: EfiStatus = 7;

/// Whether `status` is an error code, as opposed to success or a warning.
pub fn is_error(status: EfiStatus) -> (r: bool)
    ensures
        r <==> status >= ERROR_CODE_MASK,
{
    status >= ERROR_CODE_MASK
}

} // verus!
