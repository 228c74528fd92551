use vstd::prelude::*;

use crate::sys::{
    sys_close, sys_open, sys_read, sys_stat, sys_write, EIO, O_CREAT, O_RDONLY, O_TRUNC, O_WRONLY,
};

verus! {

/// How many bytes the copy loop moves at a time.
pub const COPY_CHUNK: usize = 4096;

/// Write the first `len` bytes of `buf` to `fd` completely, retrying short
/// writes until everything is out or the kernel reports an error. A write
/// that makes no progress is reported as an input/output error so the loop
/// cannot spin forever.
fn write_all(fd: i32, buf: &Vec<u8>, len: usize) -> (r: Result<(), i32>)
    requires
        len <= buf@.len(),
{
    let mut done: usize = 0;
    while done < len
        invariant
            done <= len <= buf@.len(),
        decreases len - done,
    {
        let rest = suffix_for_write(buf, done, len);
        match sys_write(fd, &rest, rest.len()) {
            Ok(n) => {
                if n == 0 {
                    return Err(EIO);
                }
                done = done + n;
            },
            Err(e) => {
                return Err(e);
            },
        }
    }
    Ok(())
}

/// The bytes of `buf` between `from` and `len`, as a fresh vector.
fn suffix_for_write(buf: &Vec<u8>, from: usize, len: usize) -> (r: Vec<u8>)
    requires
        from <= len <= buf@.len(),
    ensures
        r@ == buf@.subrange(from as int, len as int),
        r@.len() == len - from,
{
    let mut r: Vec<u8> = Vec::new();
    let mut i: usize = from;
    while i < len
        invariant
            from <= i <= len <= buf@.len(),
            r@.len() == i - from,
            forall|j: int| 0 <= j < i - from ==> r@[j] == buf@[j + from],
        decreases len - i,
    {
        r.push(buf[i]);
        i = i + 1;
    }
    proof {
        assert(r@ =~= buf@.subrange(from as int, len as int));
    }
    r
}

/// Copy the file at `src` over the file at `dst`: `dst` is created when
/// missing, truncated, and filled with the bytes of `src`, read and written
/// through the kernel in chunks. The destination gets the same fallback
/// permission bits as files the engine creates on open. The loop is bounded
/// by the source's size as it was when the copy began, with one spare
/// chunk; a source that grows faster than it can be copied is given up on
/// with an input/output error.
pub fn copy_file(src: &Vec<u8>, dst: &Vec<u8>) -> (r: Result<(), i32>) {
    let src_size: i64 = match sys_stat(src) {
        Ok(st) => st.size,
        Err(e) => {
            return Err(e);
        },
    };
    let mut rounds: u64 = if src_size < 0 {
        1
    } else {
        (src_size as u64) / (COPY_CHUNK as u64) + 2
    };
    let fd_in = match sys_open(src, O_RDONLY, 0) {
        Ok(fd) => fd,
        Err(e) => {
            return Err(e);
        },
    };
    let fd_out = match sys_open(dst, O_WRONLY | O_CREAT | O_TRUNC, 0o666) {
        Ok(fd) => fd,
        Err(e) => {
            let _ = sys_close(fd_in);
            return Err(e);
        },
    };
    let mut buf: Vec<u8> = Vec::new();
    let mut i: usize = 0;
    while i < COPY_CHUNK
        invariant
            i <= COPY_CHUNK,
            buf@.len() == i,
        decreases COPY_CHUNK - i,
    {
        buf.push(0);
        i = i + 1;
    }
    while rounds > 0
        invariant
            buf@.len() == COPY_CHUNK,
        decreases rounds,
    {
        match sys_read(fd_in, &mut buf) {
            Ok(n) => {
                if n == 0 {
                    let _ = sys_close(fd_in);
                    return match sys_close(fd_out) {
                        Ok(()) => Ok(()),
                        Err(e) => Err(e),
                    };
                }
                match write_all(fd_out, &buf, n) {
                    Ok(()) => (),
                    Err(e) => {
                        let _ = sys_close(fd_in);
                        let _ = sys_close(fd_out);
                        return Err(e);
                    },
                }
            },
            Err(e) => {
                let _ = sys_close(fd_in);
                let _ = sys_close(fd_out);
                return Err(e);
            },
        }
        rounds = rounds - 1;
    }
    let _ = sys_close(fd_in);
    let _ = sys_close(fd_out);
    Err(EIO)
}

} // verus!
