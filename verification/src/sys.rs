//! The numbers of the operating system's interface, as `libc` has them.

use vstd::prelude::*;

verus! {

/// `libc::S_IFCHR`, the file-type bit of a character device, which `libc`
/// defines as octal 20000 for every Linux-like target.
#[verifier::external_body]
pub(crate) fn character_device_bit() -> (bit: u32)
    ensures
        bit == 0o20000,
{
    libc::S_IFCHR
}

/// `libc::S_IFMT`, the mask of the file-type bits of a mode, which `libc`
/// defines as octal 170000 for every Linux-like target.
#[verifier::external_body]
pub(crate) fn file_type_mask() -> (mask: u32)
    ensures
        mask == 0o170000,
{
    libc::S_IFMT
}

/// `libc::CLOCK_MONOTONIC`, which `libc` defines as 1 for every Linux-like
/// target.
#[verifier::external_body]
pub(crate) fn monotonic_clock() -> (id: i32)
    ensures
        id == 1,
{
    libc::CLOCK_MONOTONIC
}

/// `libc::CLOCK_REALTIME`, which `libc` defines as 0 for every Linux-like
/// target.
#[verifier::external_body]
pub(crate) fn realtime_clock() -> (id: i32)
    ensures
        id == 0,
{
    libc::CLOCK_REALTIME
}

/// `libc::O_RDWR`, which `libc` defines as 2 for every Linux-like target.
#[verifier::external_body]
pub(crate) fn read_write_access() -> (flags: i32)
    ensures
        flags == 2,
{
    libc::O_RDWR
}

/// `libc::O_NONBLOCK`. Its value differs between architectures: for the
/// Linux-like targets `libc` defines it as octal 200, octal 4000 or
/// hexadecimal 4000, and no more than that is claimed.
#[verifier::external_body]
pub(crate) fn nonblocking_bit() -> (bit: i32)
    ensures
        bit == 0o200 || bit == 0o4000 || bit == 0x4000,
{
    libc::O_NONBLOCK
}

/// `libc::ESRCH`, which `libc` defines as 3 or, for Emscripten, as 71.
#[verifier::external_body]
pub(crate) fn no_such_process_error() -> (number: i32)
    ensures
        number == 3 || number == 71,
{
    libc::ESRCH
}

/// `libc::ENXIO`, which `libc` defines as 6 or, for Emscripten, as 60.
#[verifier::external_body]
pub(crate) fn no_such_address_error() -> (number: i32)
    ensures
        number == 6 || number == 60,
{
    libc::ENXIO
}

/// `libc::EBADF`, which `libc` defines as 9 or, for Emscripten, as 8.
#[verifier::external_body]
pub(crate) fn bad_descriptor_error() -> (number: i32)
    ensures
        number == 9 || number == 8,
{
    libc::EBADF
}

/// `libc::ENOMEM`, which `libc` defines as 12 or, for Emscripten, as 48.
#[verifier::external_body]
pub(crate) fn out_of_memory_error() -> (number: i32)
    ensures
        number == 12 || number == 48,
{
    libc::ENOMEM
}

/// `libc::EINVAL`, which `libc` defines as 22 or, for Emscripten, as 28.
#[verifier::external_body]
pub(crate) fn invalid_argument_error() -> (number: i32)
    ensures
        number == 22 || number == 28,
{
    libc::EINVAL
}

/// `libc::ENODATA`. Its value differs between architectures: for the
/// Linux-like targets `libc` defines it as 61, 111 or, for Emscripten, 116.
#[verifier::external_body]
pub(crate) fn no_data_error() -> (number: i32)
    ensures
        number == 61 || number == 111 || number == 116,
{
    libc::ENODATA
}

} // verus!
