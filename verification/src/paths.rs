use vstd::prelude::*;

verus! {

/// The path separator byte, `/`.
pub const SEP: u8 = 47;

/// The `.` byte that introduces a file extension.
pub const DOT: u8 = 46;

/// The view of an optional byte vector, used by resolver contracts.
pub open spec fn opt_bytes_view(o: Option<Vec<u8>>) -> Option<Seq<u8>> {
    match o {
        Some(v) => Some(v@),
        None => None,
    }
}

/// The first `n` bytes of `v`, as a fresh vector.
pub fn prefix_bytes(v: &Vec<u8>, n: usize) -> (r: Vec<u8>)
    requires
        n <= v@.len(),
    ensures
        r@ == v@.subrange(0, n as int),
{
    let mut r: Vec<u8> = Vec::new();
    let mut i: usize = 0;
    while i < n
        invariant
            i <= n <= v@.len(),
            r@.len() == i,
            forall|j: int| 0 <= j < i ==> r@[j] == v@[j],
        decreases n - i,
    {
        r.push(v[i]);
        i = i + 1;
    }
    proof {
        assert(r@ =~= v@.subrange(0, n as int));
    }
    r
}

/// The bytes of `v` from position `n` to its end, as a fresh vector.
pub fn suffix_bytes(v: &Vec<u8>, n: usize) -> (r: Vec<u8>)
    requires
        n <= v@.len(),
    ensures
        r@ == v@.subrange(n as int, v@.len() as int),
{
    let mut r: Vec<u8> = Vec::new();
    let mut i: usize = n;
    while i < v.len()
        invariant
            n <= i <= v@.len(),
            r@.len() == i - n,
            forall|j: int| 0 <= j < i - n ==> r@[j] == v@[j + n],
        decreases v@.len() - i,
    {
        r.push(v[i]);
        i = i + 1;
    }
    proof {
        assert(r@ =~= v@.subrange(n as int, v@.len() as int));
    }
    r
}

/// A copy of `v`.
pub fn clone_bytes(v: &Vec<u8>) -> (r: Vec<u8>)
    ensures
        r@ == v@,
{
    let r = prefix_bytes(v, v.len());
    proof {
        assert(v@.subrange(0, v@.len() as int) =~= v@);
    }
    r
}

/// Append all of `b` to `r`.
pub fn append_bytes(r: &mut Vec<u8>, b: &Vec<u8>)
    ensures
        final(r)@ == old(r)@ + b@,
{
    let ghost start = r@;
    let mut i: usize = 0;
    while i < b.len()
        invariant
            i <= b@.len(),
            r@.len() == start.len() + i,
            r@ == start + b@.subrange(0, i as int),
        decreases b@.len() - i,
    {
        r.push(b[i]);
        proof {
            assert(r@ =~= start + b@.subrange(0, i + 1));
        }
        i = i + 1;
    }
    proof {
        assert(start + b@.subrange(0, b@.len() as int) =~= start + b@);
    }
}

/// How two path fragments are joined: with a single separator between them,
/// added only when the left part is nonempty and does not already end in
/// one.
pub open spec fn spec_join(a: Seq<u8>, b: Seq<u8>) -> Seq<u8> {
    if a.len() > 0 && a.last() != SEP {
        a + seq![SEP] + b
    } else {
        a + b
    }
}

/// Join two path fragments as `spec_join` describes.
pub fn join_path(a: &Vec<u8>, b: &Vec<u8>) -> (r: Vec<u8>)
    ensures
        r@ == spec_join(a@, b@),
{
    let mut r = clone_bytes(a);
    if r.len() > 0 && r[r.len() - 1] != SEP {
        r.push(SEP);
        proof {
            assert(r@ =~= a@ + seq![SEP]);
        }
    }
    append_bytes(&mut r, b);
    proof {
        if a@.len() > 0 && a@.last() != SEP {
            assert(r@ =~= a@ + seq![SEP] + b@);
        }
    }
    r
}

/// The decimal digits of `n`, most significant first, with no leading zero.
pub open spec fn spec_dec(n: nat) -> Seq<u8>
    decreases n,
{
    if n < 10 {
        seq![(n + 48) as u8]
    } else {
        spec_dec(n / 10).push((n % 10 + 48) as u8)
    }
}

/// Write `n` in decimal, as the resolver does when it turns a process id
/// into a path component.
pub fn u32_to_dec(n: u32) -> (r: Vec<u8>)
    ensures
        r@ == spec_dec(n as nat),
{
    if n == 0 {
        let mut r: Vec<u8> = Vec::new();
        r.push(48);
        proof {
            assert(r@ =~= spec_dec(0));
        }
        return r;
    }
    let mut out: Vec<u8> = Vec::new();
    let mut m: u32 = n;
    while m > 0
        invariant
            m > 0 ==> spec_dec(n as nat) == spec_dec(m as nat) + out@,
            m == 0 ==> spec_dec(n as nat) == out@,
        decreases m,
    {
        let ghost prev = out@;
        let ghost mprev = m;
        let d: u8 = (m % 10) as u8 + 48;
        out.insert(0, d);
        m = m / 10;
        proof {
            assert(out@ =~= seq![d] + prev);
            assert(d == (mprev as nat % 10 + 48) as u8);
            if m > 0 {
                assert(mprev >= 10);
                assert(spec_dec(mprev as nat) == spec_dec(mprev as nat / 10).push(d));
                assert(spec_dec(mprev as nat / 10) == spec_dec(m as nat));
                assert(spec_dec(m as nat) + out@ =~= spec_dec(m as nat).push(d) + prev);
                assert(spec_dec(n as nat) == spec_dec(m as nat) + out@);
            } else {
                assert(mprev < 10);
                assert(spec_dec(mprev as nat) == seq![d]);
                assert(spec_dec(mprev as nat) + prev =~= seq![d] + prev);
                assert(spec_dec(n as nat) == out@);
            }
        }
    }
    out
}

/// The position of the `.` that separates a file extension, scanning
/// positions `1..=i` from the right. The scan never leaves the last path
/// component: a `/` ends it, and a `.` that begins a name — at position 0
/// or right after a `/` — does not begin an extension. The length of `id`
/// stands for "no extension".
pub open spec fn spec_last_dot(id: Seq<u8>, i: int) -> int
    decreases i + 1,
{
    if i < 1 || i >= id.len() {
        id.len() as int
    } else if id[i] == SEP {
        id.len() as int
    } else if id[i] == DOT {
        if id[i - 1] != SEP {
            i
        } else {
            id.len() as int
        }
    } else {
        spec_last_dot(id, i - 1)
    }
}

/// A name with `ext` applied as its file extension: any extension already
/// present in its last path component is cut away and a dot plus `ext` is
/// appended. An empty `ext` leaves the name unchanged.
pub open spec fn spec_apply_ext(id: Seq<u8>, ext: Seq<u8>) -> Seq<u8> {
    if ext.len() == 0 {
        id
    } else {
        let d = spec_last_dot(id, id.len() - 1);
        if d == id.len() {
            id + seq![DOT] + ext
        } else {
            id.subrange(0, d) + seq![DOT] + ext
        }
    }
}

/// The position of the last extension-separating dot of `id`, or its length
/// when it has none.
fn find_last_dot(id: &Vec<u8>) -> (d: usize)
    ensures
        d as int == spec_last_dot(id@, id@.len() - 1),
        d as int <= id@.len(),
{
    let mut i: usize = id.len();
    while i > 1
        invariant
            i <= id@.len(),
            spec_last_dot(id@, id@.len() - 1) == spec_last_dot(id@, i as int - 1),
        decreases i,
    {
        i = i - 1;
        if id[i] == SEP {
            proof {
                assert(spec_last_dot(id@, i as int) == id@.len());
            }
            return id.len();
        }
        if id[i] == DOT {
            if id[i - 1] != SEP {
                proof {
                    assert(spec_last_dot(id@, i as int) == i);
                }
                return i;
            }
            proof {
                assert(spec_last_dot(id@, i as int) == id@.len());
            }
            return id.len();
        }
        proof {
            assert(spec_last_dot(id@, i as int) == spec_last_dot(id@, i as int - 1));
        }
    }
    proof {
        assert(spec_last_dot(id@, i as int - 1) == id@.len());
    }
    id.len()
}

/// Apply `ext` as the file extension of `id`, as `spec_apply_ext`
/// describes.
pub fn apply_extension(id: &Vec<u8>, ext: &Vec<u8>) -> (r: Vec<u8>)
    ensures
        r@ == spec_apply_ext(id@, ext@),
{
    if ext.len() == 0 {
        return clone_bytes(id);
    }
    let d = find_last_dot(id);
    let mut r = if d == id.len() {
        clone_bytes(id)
    } else {
        prefix_bytes(id, d)
    };
    r.push(DOT);
    append_bytes(&mut r, ext);
    proof {
        if d == id@.len() {
            assert(r@ =~= id@ + seq![DOT] + ext@);
        } else {
            assert(r@ =~= id@.subrange(0, d as int) + seq![DOT] + ext@);
        }
    }
    r
}

} // verus!
