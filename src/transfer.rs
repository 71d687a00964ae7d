use crate::window::{
    fits_in_window, load_from_window, store_into_window, value_in_window, window_of,
    ATOMIC_WIDTH,
};
use nix::errno::Errno;
use nix::sys::uio::{process_vm_readv, process_vm_writev, IoVec, RemoteIoVec};
use nix::unistd::Pid;
use vstd::prelude::*;

verus! {

#[verifier::external_type_specification]
#[verifier::external_body]
pub struct ExPid(Pid);

#[verifier::external_type_specification]
#[verifier::external_body]
pub struct ExErrno(Errno);

/// What can go wrong while moving bytes to or from the remote process.
#[derive(Clone, Copy, Debug, PartialEq, Eq)]
pub enum Error {
    /// The transfer call itself failed; carries the error it reported.
    Rw(Errno),
    /// The transfer call moved fewer bytes than the value needs.
    ByteCount {
        /// Bytes that were moved.
        is: usize,
        /// Bytes that were asked for.
        should: usize,
    },
}

/// Relies on nix's `process_vm_readv`: one local and one remote slice of the
/// same length; on success it returns how many bytes it copied into `buf`,
/// never more than were asked for, and the buffer keeps its length.
#[verifier::external_body]
fn vm_readv(pid: Pid, buf: &mut [u8], base: usize) -> (r: Result<usize, Errno>)
    ensures
        final(buf)@.len() == old(buf)@.len(),
        r matches Ok(n) ==> n <= old(buf)@.len(),
{
    let len = buf.len();
    let local = [IoVec::from_mut_slice(buf)];
    let remote = [RemoteIoVec { base, len }];
    process_vm_readv(pid, &local, &remote)
}

/// Relies on nix's `process_vm_writev`: one local and one remote slice of the
/// same length; on success it returns how many bytes of `val` it copied,
/// never more than were asked for.
#[verifier::external_body]
fn vm_writev(pid: Pid, base: usize, val: &[u8]) -> (r: Result<usize, Errno>)
    ensures
        r matches Ok(n) ==> n <= val@.len(),
{
    let local = [IoVec::from_slice(val)];
    let remote = [RemoteIoVec { base, len: val.len() }];
    process_vm_writev(pid, &local, &remote)
}

/// Relies on `std::sync::atomic::fence` with `SeqCst`: a full barrier on the
/// local side, so that the bytes a transfer moved are not touched out of
/// order with it.
#[verifier::external_body]
fn full_fence() {
    std::sync::atomic::fence(std::sync::atomic::Ordering::SeqCst)
}

/// Copies up to `buf.len()` bytes at `addr` in the process `pid` into `buf`,
/// and returns how many it copied. An empty buffer asks nothing of the
/// system and gives `Ok(0)`.
pub fn process_read_bytes(pid: Pid, buf: &mut [u8], addr: usize) -> (r: Result<usize, Error>)
    ensures
        final(buf)@.len() == old(buf)@.len(),
        r matches Ok(n) ==> n <= old(buf)@.len(),
        r matches Err(e) ==> e is Rw,
        old(buf)@.len() == 0 ==> r == Ok::<usize, Error>(0usize),
{
    if buf.len() == 0 {
        return Ok(0);
    }
    match vm_readv(pid, buf, addr) {
        Ok(n) => {
            full_fence();
            Ok(n)
        },
        Err(e) => Err(Error::Rw(e)),
    }
}

/// Copies up to `val.len()` bytes of `val` to `addr` in the process `pid`,
/// and returns how many it copied. An empty value asks nothing of the system
/// and gives `Ok(0)`.
pub fn process_write_bytes(pid: Pid, addr: usize, val: &[u8]) -> (r: Result<usize, Error>)
    ensures
        r matches Ok(n) ==> n <= val@.len(),
        r matches Err(e) ==> e is Rw,
        val@.len() == 0 ==> r == Ok::<usize, Error>(0usize),
{
    if val.len() == 0 {
        return Ok(0);
    }
    full_fence();
    match vm_writev(pid, addr, val) {
        Ok(n) => {
            full_fence();
            Ok(n)
        },
        Err(e) => Err(Error::Rw(e)),
    }
}

/// Succeeds exactly when a transfer moved all the bytes it was asked for.
pub fn check_byte_count(is: usize, should: usize) -> (r: Result<(), Error>)
    ensures
        r == if is == should {
            Ok::<(), Error>(())
        } else {
            Err::<(), Error>(Error::ByteCount { is, should })
        },
{
    if is != should {
        Err(Error::ByteCount { is, should })
    } else {
        Ok(())
    }
}

/// Reads exactly `len` bytes at `addr` in the process `pid`. A short read is
/// an error and hands back none of the bytes.
pub fn process_read(pid: Pid, addr: usize, len: usize) -> (r: Result<Vec<u8>, Error>)
    ensures
        r matches Ok(v) ==> v@.len() == len,
        r matches Err(Error::ByteCount { is, should }) ==> should == len && is < len,
        len == 0 ==> (r matches Ok(v) && v@.len() == 0),
{
    let mut buf: Vec<u8> = vec![0u8; len];
    let read = process_read_bytes(pid, buf.as_mut_slice(), addr)?;
    check_byte_count(read, len)?;
    Ok(buf)
}

/// Writes all of `val` to `addr` in the process `pid`. A short write is an
/// error: the remote bytes may then be partly updated.
pub fn process_write(pid: Pid, addr: usize, val: &[u8]) -> (r: Result<(), Error>)
    ensures
        r matches Err(Error::ByteCount { is, should }) ==> should == val@.len() && is < should,
        val@.len() == 0 ==> r is Ok,
{
    let written = process_write_bytes(pid, addr, val)?;
    check_byte_count(written, val.len())
}

/// Reads the value of `len` bytes at `addr` in the process `pid` by reading
/// the whole aligned window that holds it, in one transfer.
pub fn process_load(pid: Pid, addr: usize, len: usize) -> (r: Result<Vec<u8>, Error>)
    requires
        fits_in_window(addr as int, len as int),
    ensures
        r matches Ok(v) ==> v@.len() == len,
        r matches Ok(v) ==> exists|w: Seq<u8>|
            w.len() == ATOMIC_WIDTH && v@ == #[trigger] value_in_window(w, addr as int, len as int),
        r matches Err(Error::ByteCount { is, should }) ==> should == ATOMIC_WIDTH && is < should,
{
    let start = window_of(addr).start;
    let window = process_read(pid, start, ATOMIC_WIDTH)?;
    Ok(load_from_window(window.as_slice(), addr, len))
}

/// Writes `val` at `addr` in the process `pid`: reads the aligned window
/// that holds it, puts the value's bytes in, and writes the whole window
/// back, each in one transfer. The window's other bytes are written back as
/// they were read.
pub fn process_store(pid: Pid, addr: usize, val: &[u8]) -> (r: Result<(), Error>)
    requires
        fits_in_window(addr as int, val@.len() as int),
    ensures
        r matches Err(Error::ByteCount { is, should }) ==> should == ATOMIC_WIDTH && is < should,
{
    let start = window_of(addr).start;
    let window = process_read(pid, start, ATOMIC_WIDTH)?;
    let updated = store_into_window(window.as_slice(), addr, val);
    process_write(pid, start, updated.as_slice())
}

} // verus!
