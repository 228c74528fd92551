use vstd::prelude::*;

use crate::identity::UidGidPid;
use crate::paths::{clone_bytes, opt_bytes_view};
use crate::sys::{
    sys_close, sys_fdatasync, sys_fsync, sys_ftruncate, sys_open, sys_pread, sys_pwrite, sys_stat,
    sys_truncate, StatInfo, ENOENT,
};

verus! {

/// The one inode number the engine serves; every other inode is answered
/// with "no such entry".
pub const ROOT_INO: u64 = 1;

/// Largest number of bytes a single read reply may carry: 16 pages of 4096
/// bytes. Requests for more are clamped to this bound so one request cannot
/// force an unbounded allocation.
pub const READ_LEN_MAX: u32 = 65536;

/// Clamp a requested read length to `READ_LEN_MAX`.
pub fn clamp_read_len(size: u32) -> (r: u32)
    ensures
        r == if size <= READ_LEN_MAX {
            size
        } else {
            READ_LEN_MAX
        },
        r <= READ_LEN_MAX,
{
    if size <= READ_LEN_MAX {
        size
    } else {
        READ_LEN_MAX
    }
}

/// How many seconds the kernel may cache an attribute reply.
pub const ATTR_TTL_SECS: u64 = 3600;

/// The fallback permission bits handed to the kernel when an open implies
/// creating the backing file.
pub const OPEN_FALLBACK_MODE: u32 = 0o666;

/// A resolution strategy: maps the identity of the calling process to the
/// path of the file that backs the exposed inode for this request, or to
/// nothing when there is no mapping. `admits` names the outcomes the
/// strategy can produce, and is what the engine's contracts are stated
/// over.
pub trait Mapper: Sized {
    /// Which outcomes resolving `rq` may yield.
    spec fn admits(&self, rq: UidGidPid, r: Option<Seq<u8>>) -> bool;

    /// Resolve `rq` to a backing path, or to nothing.
    fn map(&self, rq: UidGidPid) -> (r: Option<Vec<u8>>)
        ensures
            self.admits(rq, opt_bytes_view(r)),
    ;
}

/// The static resolution strategy: every identity resolves to the one
/// configured file, so resolution itself never fails; only the later
/// operation on that file can.
pub struct StaticMapper {
    /// The single backing file every caller is directed to.
    pub path: Vec<u8>,
}

impl Mapper for StaticMapper {
    /// The only admissible outcome is the configured path itself.
    open spec fn admits(&self, rq: UidGidPid, r: Option<Seq<u8>>) -> bool {
        r == Some(self.path@)
    }

    fn map(&self, rq: UidGidPid) -> (r: Option<Vec<u8>>) {
        Some(clone_bytes(&self.path))
    }
}

/// Resolution under the static strategy never yields "no mapping",
/// whatever the caller's identity.
pub proof fn lemma_static_always_resolves(m: StaticMapper, rq: UidGidPid, r: Option<Seq<u8>>)
    requires
        m.admits(rq, r),
    ensures
        r == Some(m.path@),
{
}

/// An attribute reply, with every field a plain value. Timestamps are
/// seconds and nanoseconds since the epoch; the creation time is not
/// available from the underlying metadata call and is reported as the
/// epoch.
#[derive(Copy, Clone, PartialEq, Eq, Structural, Debug)]
pub struct Attrs {
    pub ino: u64,
    pub size: u64,
    pub blocks: u64,
    pub atime_sec: u64,
    pub atime_nsec: u32,
    pub mtime_sec: u64,
    pub mtime_nsec: u32,
    pub ctime_sec: u64,
    pub ctime_nsec: u32,
    pub crtime_sec: u64,
    pub crtime_nsec: u32,
    pub perm: u16,
    pub nlink: u32,
    pub uid: u32,
    pub gid: u32,
    pub rdev: u32,
    pub blksize: u32,
    pub flags: u32,
}

/// The fixed parts of every attribute reply the engine makes: one hard
/// link, no device, no flags, creation time at the epoch.
pub open spec fn attrs_fixed(a: Attrs, ino: u64) -> bool {
    &&& a.ino == ino
    &&& a.nlink == 1
    &&& a.rdev == 0
    &&& a.flags == 0
    &&& a.crtime_sec == 0
    &&& a.crtime_nsec == 0
}

/// How an attribute reply relates to the stat result it was built from:
/// the fixed fields are set, the kernel's signed fields are carried over
/// whenever they are in range of the reply's unsigned fields, and the
/// permission bits keep exactly the low sixteen bits of the mode.
pub open spec fn attrs_match_stat(a: Attrs, ino: u64, st: StatInfo) -> bool {
    &&& attrs_fixed(a, ino)
    &&& (st.size >= 0 ==> a.size == st.size)
    &&& (st.blocks >= 0 ==> a.blocks == st.blocks)
    &&& (st.atime >= 0 ==> a.atime_sec == st.atime)
    &&& (0 <= st.atime_nsec <= u32::MAX ==> a.atime_nsec == st.atime_nsec)
    &&& (st.mtime >= 0 ==> a.mtime_sec == st.mtime)
    &&& (0 <= st.mtime_nsec <= u32::MAX ==> a.mtime_nsec == st.mtime_nsec)
    &&& (st.ctime >= 0 ==> a.ctime_sec == st.ctime)
    &&& (0 <= st.ctime_nsec <= u32::MAX ==> a.ctime_nsec == st.ctime_nsec)
    &&& a.perm == st.mode % 0x10000
    &&& a.uid == st.uid
    &&& a.gid == st.gid
    &&& (0 <= st.blksize <= u32::MAX ==> a.blksize == st.blksize)
}

/// Whether `a` is an attribute reply the engine can make for `ino`: it
/// stands in the stat relation to some metadata result.
pub open spec fn attrs_possible(a: Attrs, ino: u64) -> bool {
    exists|st: StatInfo| attrs_match_stat(a, ino, st)
}

/// Translate a stat result into the attribute reply for inode `ino`, as
/// `attrs_match_stat` states.
pub fn attrs_from_stat(ino: u64, st: StatInfo) -> (a: Attrs)
    ensures
        attrs_match_stat(a, ino, st),
{
    Attrs {
        ino,
        size: #[verifier::truncate] (st.size as u64),
        blocks: #[verifier::truncate] (st.blocks as u64),
        atime_sec: #[verifier::truncate] (st.atime as u64),
        atime_nsec: #[verifier::truncate] (st.atime_nsec as u32),
        mtime_sec: #[verifier::truncate] (st.mtime as u64),
        mtime_nsec: #[verifier::truncate] (st.mtime_nsec as u32),
        ctime_sec: #[verifier::truncate] (st.ctime as u64),
        ctime_nsec: #[verifier::truncate] (st.ctime_nsec as u32),
        crtime_sec: 0,
        crtime_nsec: 0,
        perm: (st.mode % 0x10000) as u16,
        nlink: 1,
        uid: st.uid,
        gid: st.gid,
        rdev: 0,
        blksize: #[verifier::truncate] (st.blksize as u32),
        flags: 0,
    }
}

/// The contents of a regular file after a positioned write of `data` at
/// offset `off`, as the kernel call behind the engine's write performs it:
/// a file shorter than `off` first grows with zero bytes up to it, the
/// written range replaces what was there, and bytes past the written range
/// keep their values.
pub open spec fn spec_write_at(file: Seq<u8>, off: nat, data: Seq<u8>) -> Seq<u8> {
    let grown = if file.len() < off {
        file + Seq::new((off - file.len()) as nat, |i: int| 0u8)
    } else {
        file
    };
    let tail = if grown.len() > off + data.len() {
        grown.subrange((off + data.len()) as int, grown.len() as int)
    } else {
        Seq::<u8>::empty()
    };
    grown.subrange(0, off as int) + data + tail
}

/// The bytes a positioned read of `len` at `off` returns from a quiescent
/// file, as the kernel call behind the engine's read performs it: the
/// bytes from `off` up to `len` of them, short when the file ends first
/// and empty when `off` is at or past its end.
pub open spec fn spec_read_at(file: Seq<u8>, off: nat, len: nat) -> Seq<u8> {
    if off >= file.len() {
        Seq::<u8>::empty()
    } else if off + len <= file.len() {
        file.subrange(off as int, (off + len) as int)
    } else {
        file.subrange(off as int, file.len() as int)
    }
}

/// Writing bytes at an offset and then reading the same number of bytes
/// back at the same offset yields exactly the written bytes, whatever the
/// file held before — provided no other writer intervenes between the two
/// operations.
pub proof fn lemma_write_read_round_trip(file: Seq<u8>, off: nat, data: Seq<u8>)
    ensures
        spec_read_at(spec_write_at(file, off, data), off, data.len()) == data,
{
    let w = spec_write_at(file, off, data);
    let grown = if file.len() < off {
        file + Seq::new((off - file.len()) as nat, |i: int| 0u8)
    } else {
        file
    };
    assert(grown.len() >= off);
    assert(grown.subrange(0, off as int).len() == off);
    assert(w.len() >= off + data.len());
    if data.len() == 0 {
        assert(spec_read_at(w, off, 0) =~= data);
    } else {
        assert(off < w.len());
        assert(spec_read_at(w, off, data.len()) == w.subrange(off as int, (off + data.len()) as int));
        assert(w.subrange(off as int, (off + data.len()) as int) =~= data);
    }
}

/// A successful open reply: the opaque handle, and the hint that the
/// kernel must not cache data for it, since the backing file can change
/// underneath the virtual file between opens.
#[derive(Copy, Clone, PartialEq, Eq, Structural, Debug)]
pub struct OpenedHandle {
    pub fh: u64,
    pub direct_io: bool,
}

/// Where an attributes-change request sends its truncation: nowhere,
/// through the open handle it names, or through the resolved path when it
/// names none.
#[derive(Copy, Clone, PartialEq, Eq, Structural, Debug)]
pub enum TruncatePlan {
    Keep,
    ViaHandle { fh: u64, size: u64 },
    ViaPath { size: u64 },
}

/// Decide where a requested size change is applied: nowhere when no new
/// size is requested, through the supplied handle when there is one, and
/// otherwise at the resolved backing path itself.
pub fn truncate_plan(size: Option<u64>, fh: Option<u64>) -> (r: TruncatePlan)
    ensures
        r == (match (size, fh) {
            (None, _) => TruncatePlan::Keep,
            (Some(s), Some(h)) => TruncatePlan::ViaHandle { fh: h, size: s },
            (Some(s), None) => TruncatePlan::ViaPath { size: s },
        }),
{
    match size {
        None => TruncatePlan::Keep,
        Some(s) => match fh {
            Some(h) => TruncatePlan::ViaHandle { fh: h, size: s },
            None => TruncatePlan::ViaPath { size: s },
        },
    }
}

/// The single-inode passthrough engine: answers every filesystem event for
/// the one exposed inode by resolving the caller to a backing file and
/// forwarding the operation to it. It holds no state of its own beyond the
/// resolution strategy; all durable state lives in the backing filesystem.
pub struct FileMapperFs<M: Mapper> {
    /// The resolution strategy consulted once per resolving request.
    pub mapper: M,
}

impl<M: Mapper> FileMapperFs<M> {
    /// Build an engine around a resolution strategy.
    pub fn new(mapper: M) -> (r: Self)
        ensures
            r.mapper == mapper,
    {
        FileMapperFs { mapper }
    }

    /// Resolve the caller of a request to a backing path; an identity with
    /// no mapping is answered with "no such entry".
    pub fn get_backing_file(&self, rq: UidGidPid) -> (r: Result<Vec<u8>, i32>)
        ensures
            match r {
                Ok(p) => self.mapper.admits(rq, Some(p@)),
                Err(e) => e == ENOENT && self.mapper.admits(rq, None),
            },
    {
        match self.mapper.map(rq) {
            Some(x) => Ok(x),
            None => Err(ENOENT),
        }
    }

    /// Answer an attributes query: only the exposed inode exists; its
    /// attributes are those of the resolved backing file, translated as
    /// `attrs_from_stat` states. A failed resolution or stat call reports
    /// its error code.
    pub fn getattr(&self, rq: UidGidPid, ino: u64) -> (r: Result<Attrs, i32>)
        ensures
            ino != ROOT_INO ==> r == Err::<Attrs, i32>(ENOENT),
            r matches Ok(a) ==> ino == ROOT_INO && attrs_possible(a, ino),
            (ino == ROOT_INO && !(exists|p: Seq<u8>| self.mapper.admits(rq, Some(p)))) ==> r == Err::<
                Attrs,
                i32,
            >(ENOENT),
    {
        if ino != ROOT_INO {
            return Err(ENOENT);
        }
        let bf = match self.get_backing_file(rq) {
            Ok(p) => p,
            Err(e) => {
                return Err(e);
            },
        };
        match sys_stat(&bf) {
            Ok(st) => {
                let a = attrs_from_stat(ino, st);
                proof {
                    assert(attrs_possible(a, ino)) by {
                        assert(attrs_match_stat(a, ino, st));
                    }
                }
                Ok(a)
            },
            Err(e) => Err(e),
        }
    }

    /// Answer an open request: resolve the caller, open the backing file
    /// with the caller's flags and the fallback creation mode, and hand
    /// back the raw descriptor as the opaque handle, always with the
    /// direct-I/O hint set.
    pub fn open(&self, rq: UidGidPid, ino: u64, flags: i32) -> (r: Result<OpenedHandle, i32>)
        ensures
            ino != ROOT_INO ==> r == Err::<OpenedHandle, i32>(ENOENT),
            r matches Ok(h) ==> ino == ROOT_INO && h.direct_io && h.fh <= i32::MAX,
            (ino == ROOT_INO && !(exists|p: Seq<u8>| self.mapper.admits(rq, Some(p)))) ==> r == Err::<
                OpenedHandle,
                i32,
            >(ENOENT),
    {
        if ino != ROOT_INO {
            return Err(ENOENT);
        }
        let bf = match self.get_backing_file(rq) {
            Ok(p) => p,
            Err(e) => {
                return Err(e);
            },
        };
        match sys_open(&bf, flags, OPEN_FALLBACK_MODE) {
            Ok(fd) => Ok(OpenedHandle { fh: fd as u64, direct_io: true }),
            Err(e) => Err(e),
        }
    }

    /// Answer a release request: close the descriptor behind the handle
    /// and propagate the kernel's verdict.
    pub fn release(&self, fh: u64) -> Result<(), i32> {
        let fd: i32 = #[verifier::truncate] (fh as i32);
        sys_close(fd)
    }

    /// Answer a flush request: data only when `datasync` is set, data and
    /// metadata otherwise.
    pub fn fsync(&self, fh: u64, datasync: bool) -> Result<(), i32> {
        let fd: i32 = #[verifier::truncate] (fh as i32);
        if datasync {
            sys_fdatasync(fd)
        } else {
            sys_fsync(fd)
        }
    }

    /// Answer a read request: the requested length is clamped to
    /// `READ_LEN_MAX`, a positioned read — whose effect on a quiescent
    /// file `spec_read_at` describes — is made at the given offset, and
    /// exactly the bytes obtained are returned; a short read is not
    /// retried.
    pub fn read(&self, fh: u64, offset: i64, size: u32) -> (r: Result<Vec<u8>, i32>)
        ensures
            r matches Ok(d) ==> d@.len() <= READ_LEN_MAX && d@.len() <= size,
    {
        let fd: i32 = #[verifier::truncate] (fh as i32);
        let want = clamp_read_len(size);
        let mut buf: Vec<u8> = Vec::new();
        let mut i: u32 = 0;
        while i < want
            invariant
                i <= want,
                buf@.len() == i,
            decreases want - i,
        {
            buf.push(0);
            i = i + 1;
        }
        match sys_pread(fd, &mut buf, offset) {
            Ok(n) => {
                buf.truncate(n);
                Ok(buf)
            },
            Err(e) => Err(e),
        }
    }

    /// Answer a write request: a positioned write at the given offset —
    /// whose effect on the file `spec_write_at` describes — reporting how
    /// many bytes the kernel accepted. The reply field is 32 bits wide,
    /// so the request may not carry more than fits in it.
    pub fn write(&self, fh: u64, offset: i64, data: &[u8]) -> (r: Result<u32, i32>)
        requires
            data@.len() <= u32::MAX,
        ensures
            r matches Ok(n) ==> n <= data@.len(),
    {
        let fd: i32 = #[verifier::truncate] (fh as i32);
        match sys_pwrite(fd, data, offset) {
            Ok(n) => Ok(n as u32),
            Err(e) => Err(e),
        }
    }

    /// Answer an attributes-change request: only the exposed inode exists.
    /// A requested size change is applied where `truncate_plan` decides —
    /// to the open descriptor when a handle is supplied, else to the file
    /// at its resolved path — and the reply is then built exactly as an
    /// attributes query would build it.
    pub fn setattr(&self, rq: UidGidPid, ino: u64, size: Option<u64>, fh: Option<u64>) -> (r: Result<
        Attrs,
        i32,
    >)
        ensures
            ino != ROOT_INO ==> r == Err::<Attrs, i32>(ENOENT),
            r matches Ok(a) ==> ino == ROOT_INO && attrs_possible(a, ino),
            (ino == ROOT_INO && !(exists|p: Seq<u8>| self.mapper.admits(rq, Some(p)))) ==> r == Err::<
                Attrs,
                i32,
            >(ENOENT),
    {
        if ino != ROOT_INO {
            return Err(ENOENT);
        }
        let bf = match self.get_backing_file(rq) {
            Ok(p) => p,
            Err(e) => {
                return Err(e);
            },
        };
        match truncate_plan(size, fh) {
            TruncatePlan::Keep => (),
            TruncatePlan::ViaHandle { fh: h, size: s } => {
                let fd: i32 = #[verifier::truncate] (h as i32);
                let len: i64 = #[verifier::truncate] (s as i64);
                match sys_ftruncate(fd, len) {
                    Ok(()) => (),
                    Err(e) => {
                        return Err(e);
                    },
                }
            },
            TruncatePlan::ViaPath { size: s } => {
                let len: i64 = #[verifier::truncate] (s as i64);
                match sys_truncate(&bf, len) {
                    Ok(()) => (),
                    Err(e) => {
                        return Err(e);
                    },
                }
            },
        }
        match sys_stat(&bf) {
            Ok(st) => {
                let a = attrs_from_stat(ino, st);
                proof {
                    assert(attrs_possible(a, ino)) by {
                        assert(attrs_match_stat(a, ino, st));
                    }
                }
                Ok(a)
            },
            Err(e) => Err(e),
        }
    }
}

} // verus!
