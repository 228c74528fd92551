use vstd::prelude::*;

verus! {

/// "No such file or directory", as the target kernel numbers it. Used both
/// for requests on any inode other than the exposed one and for identities
/// that resolve to no backing file.
pub const ENOENT: i32 = 2;

/// "Input/output error", as the target kernel numbers it. Reported when a
/// write during seeding makes no progress.
pub const EIO: i32 = 5;

/// Open for reading only, as the target kernel defines the flag.
pub const O_RDONLY: i32 = 0;

/// Open for writing only.
pub const O_WRONLY: i32 = 1;

/// Create the file if it does not exist.
pub const O_CREAT: i32 = 0o100;

/// Truncate the file to length zero on open.
pub const O_TRUNC: i32 = 0o1000;

/// The fields of the kernel's stat structure that the attribute reply is
/// built from, held as plain values with the widths the target kernel uses.
#[derive(Copy, Clone, PartialEq, Eq, Structural, Debug)]
pub struct StatInfo {
    pub size: i64,
    pub blocks: i64,
    pub atime: i64,
    pub atime_nsec: i64,
    pub mtime: i64,
    pub mtime_nsec: i64,
    pub ctime: i64,
    pub ctime_nsec: i64,
    pub mode: u32,
    pub uid: u32,
    pub gid: u32,
    pub blksize: i64,
}

/// Relies on nix::sys::stat::stat: queries the metadata of the file at
/// `path`. What comes back depends on the filesystem, so nothing is promised
/// of the fields; a failure carries the kernel's error code.
#[verifier::external_body]
pub(crate) fn sys_stat(path: &Vec<u8>) -> Result<StatInfo, i32> {
    match nix::sys::stat::stat(&path[..]) {
        Ok(st) => Ok(StatInfo {
            size: st.st_size, blocks: st.st_blocks,
            atime: st.st_atime, atime_nsec: st.st_atime_nsec,
            mtime: st.st_mtime, mtime_nsec: st.st_mtime_nsec,
            ctime: st.st_ctime, ctime_nsec: st.st_ctime_nsec,
            mode: st.st_mode, uid: st.st_uid, gid: st.st_gid,
            blksize: st.st_blksize,
        }),
        Err(e) => Err(e as i32),
    }
}

/// Relies on nix::fcntl::open: opens the file at `path` with the given flag
/// bits and, where creation is implied, the given permission bits. A
/// descriptor returned by the kernel is never negative.
#[verifier::external_body]
pub(crate) fn sys_open(path: &Vec<u8>, flags: i32, mode: u32) -> (r: Result<i32, i32>)
    ensures
        r matches Ok(fd) ==> 0 <= fd,
{
    let oflag = nix::fcntl::OFlag::from_bits_truncate(flags);
    let mode = nix::sys::stat::Mode::from_bits_truncate(mode);
    match nix::fcntl::open(&path[..], oflag, mode) {
        Ok(fd) => Ok(fd),
        Err(e) => Err(e as i32),
    }
}

/// Relies on nix::unistd::close: closes the descriptor and propagates the
/// kernel's error code.
#[verifier::external_body]
pub(crate) fn sys_close(fd: i32) -> Result<(), i32> {
    match nix::unistd::close(fd) {
        Ok(()) => Ok(()),
        Err(e) => Err(e as i32),
    }
}

/// Relies on nix::unistd::fsync: flushes file data and metadata.
#[verifier::external_body]
pub(crate) fn sys_fsync(fd: i32) -> Result<(), i32> {
    match nix::unistd::fsync(fd) {
        Ok(()) => Ok(()),
        Err(e) => Err(e as i32),
    }
}

/// Relies on nix::unistd::fdatasync: flushes file data only.
#[verifier::external_body]
pub(crate) fn sys_fdatasync(fd: i32) -> Result<(), i32> {
    match nix::unistd::fdatasync(fd) {
        Ok(()) => Ok(()),
        Err(e) => Err(e as i32),
    }
}

/// Relies on nix::sys::uio::pread: reads at most `buf.len()` bytes at the
/// given offset into `buf`, without moving the descriptor's own position,
/// and returns how many bytes it read. The bytes come from the disk, so
/// nothing is promised of the contents.
#[verifier::external_body]
pub(crate) fn sys_pread(fd: i32, buf: &mut Vec<u8>, offset: i64) -> (r: Result<usize, i32>)
    ensures
        final(buf)@.len() == old(buf)@.len(),
        r matches Ok(n) ==> n <= final(buf)@.len(),
{
    match nix::sys::uio::pread(fd, &mut buf[..], offset) {
        Ok(n) => Ok(n),
        Err(e) => Err(e as i32),
    }
}

/// Relies on nix::sys::uio::pwrite: writes at most `data.len()` bytes at the
/// given offset, without moving the descriptor's own position, and returns
/// how many bytes it wrote.
#[verifier::external_body]
pub(crate) fn sys_pwrite(fd: i32, data: &[u8], offset: i64) -> (r: Result<usize, i32>)
    ensures
        r matches Ok(n) ==> n <= data@.len(),
{
    match nix::sys::uio::pwrite(fd, data, offset) {
        Ok(n) => Ok(n),
        Err(e) => Err(e as i32),
    }
}

/// Relies on nix::unistd::read: reads at most `buf.len()` bytes at the
/// descriptor's position into `buf` and returns how many bytes it read.
#[verifier::external_body]
pub(crate) fn sys_read(fd: i32, buf: &mut Vec<u8>) -> (r: Result<usize, i32>)
    ensures
        final(buf)@.len() == old(buf)@.len(),
        r matches Ok(n) ==> n <= final(buf)@.len(),
{
    match nix::unistd::read(fd, &mut buf[..]) {
        Ok(n) => Ok(n),
        Err(e) => Err(e as i32),
    }
}

/// Relies on nix::unistd::write: writes at most `len` bytes from the front
/// of `data` at the descriptor's position and returns how many it wrote.
#[verifier::external_body]
pub(crate) fn sys_write(fd: i32, data: &Vec<u8>, len: usize) -> (r: Result<usize, i32>)
    requires
        len <= data@.len(),
    ensures
        r matches Ok(n) ==> n <= len,
{
    match nix::unistd::write(fd, &data[..len]) {
        Ok(n) => Ok(n),
        Err(e) => Err(e as i32),
    }
}

/// Relies on nix::fcntl::readlink: reads the target of the symbolic link at
/// `path`. Returns the target as bytes when the link could be read and its
/// target is valid UTF-8 text, and nothing otherwise; the target depends on
/// the disk, so nothing is promised of the contents.
#[verifier::external_body]
pub(crate) fn sys_readlink(path: &Vec<u8>) -> Option<Vec<u8>> {
    match nix::fcntl::readlink(&path[..]) {
        Ok(target) => match target.into_string() {
            Ok(s) => Some(s.into_bytes()),
            Err(_) => None,
        },
        Err(_) => None,
    }
}

/// Relies on nix::unistd::truncate: truncates the file at `path` to `len`
/// bytes.
#[verifier::external_body]
pub(crate) fn sys_truncate(path: &Vec<u8>, len: i64) -> Result<(), i32> {
    match nix::unistd::truncate(&path[..], len) {
        Ok(()) => Ok(()),
        Err(e) => Err(e as i32),
    }
}

/// Relies on nix::unistd::ftruncate: truncates the open descriptor to `len`
/// bytes.
#[verifier::external_body]
pub(crate) fn sys_ftruncate(fd: i32, len: i64) -> Result<(), i32> {
    match nix::unistd::ftruncate(fd, len) {
        Ok(()) => Ok(()),
        Err(e) => Err(e as i32),
    }
}

} // verus!
