use vstd::prelude::*;

use crate::engine::Mapper;
use crate::identity::UidGidPid;
use crate::paths::{
    apply_extension, join_path, opt_bytes_view, spec_apply_ext, spec_dec, spec_join, suffix_bytes,
    u32_to_dec,
};
use crate::sys::{sys_close, sys_open, sys_readlink, sys_stat, O_RDONLY};

verus! {

/// `:`, the byte that separates the namespace kind from its identifier.
pub const COLON: u8 = 58;

/// `[`, trimmed from the front of the identifier part.
pub const LBRACKET: u8 = 91;

/// `]`, trimmed from the end of the identifier part.
pub const RBRACKET: u8 = 93;

/// The directory-type bits of a stat mode, and the value they take for a
/// directory, as the target kernel defines them.
pub const S_IFMT: u32 = 0o170000;

/// The mode-bit value that marks a directory.
pub const S_IFDIR: u32 = 0o040000;

/// `s` with one trailing `]` and then one leading `[` removed, each where
/// present: what stands between the brackets is kept verbatim, brackets of
/// its own included.
pub open spec fn spec_strip_brackets(s: Seq<u8>) -> Seq<u8> {
    let t = if s.len() > 0 && s.last() == RBRACKET {
        s.drop_last()
    } else {
        s
    };
    if t.len() > 0 && t.first() == LBRACKET {
        t.drop_first()
    } else {
        t
    }
}

/// The position of the first `:` in `c` at or after `i`, or the length of
/// `c` when there is none.
pub open spec fn spec_colon_from(c: Seq<u8>, i: int) -> int
    decreases c.len() - i,
{
    if !(0 <= i < c.len()) {
        c.len() as int
    } else if c[i] == COLON {
        i
    } else {
        spec_colon_from(c, i + 1)
    }
}

/// The bytes of the literal token `net`.
pub open spec fn net_token() -> Seq<u8> {
    seq![110u8, 101u8, 116u8]
}

/// What a namespace symlink target of the form `net:[<identifier>]` yields:
/// the part before the first `:` must be exactly `net`, and the identifier
/// is the rest with a leading `[` and a trailing `]` trimmed away, each
/// where present. Any other shape yields nothing.
pub open spec fn spec_netns_id(c: Seq<u8>) -> Option<Seq<u8>> {
    let i = spec_colon_from(c, 0);
    if i == c.len() {
        None
    } else if c.subrange(0, i) == net_token() {
        Some(spec_strip_brackets(c.subrange(i + 1, c.len() as int)))
    } else {
        None
    }
}

/// Extract the namespace identifier from the content of a namespace
/// symlink, as `spec_netns_id` describes: `net:[4026531992]` yields
/// `4026531992`, while content without a `:`, or whose part before the
/// first `:` is not exactly `net`, yields nothing.
pub fn parse_netns_id(content: &Vec<u8>) -> (r: Option<Vec<u8>>)
    ensures
        opt_bytes_view(r) == spec_netns_id(content@),
{
    let n = content.len();
    let mut j: usize = 0;
    while j < n && content[j] != COLON
        invariant
            j <= n,
            n == content@.len(),
            spec_colon_from(content@, 0) == spec_colon_from(content@, j as int),
        decreases n - j,
    {
        proof {
            assert(spec_colon_from(content@, j as int) == spec_colon_from(content@, j as int + 1));
        }
        j = j + 1;
    }
    if j == n {
        proof {
            assert(spec_colon_from(content@, j as int) == n);
        }
        return None;
    }
    proof {
        assert(spec_colon_from(content@, j as int) == j);
    }
    if !(j == 3 && content[0] == 110 && content[1] == 101 && content[2] == 116) {
        proof {
            let pre = content@.subrange(0, j as int);
            assert(pre.len() == j);
            assert(net_token().len() == 3);
            if j == 3 {
                assert(pre[0] == content@[0]);
                assert(pre[1] == content@[1]);
                assert(pre[2] == content@[2]);
                assert(pre != net_token());
            } else {
                assert(pre != net_token());
            }
        }
        return None;
    }
    proof {
        assert(content@.subrange(0, 3) =~= net_token());
    }
    let mut ns = suffix_bytes(content, j + 1);
    let ghost region = content@.subrange(j + 1, content@.len() as int);
    if ns.len() > 0 && ns[ns.len() - 1] == RBRACKET {
        let ghost before = ns@;
        ns.pop();
        proof {
            assert(ns@ =~= before.drop_last());
        }
    }
    let ghost after_trailing = ns@;
    proof {
        assert(after_trailing == (if region.len() > 0 && region.last() == RBRACKET {
            region.drop_last()
        } else {
            region
        }));
    }
    if ns.len() > 0 && ns[0] == LBRACKET {
        let ghost before = ns@;
        ns.remove(0);
        proof {
            assert(ns@ =~= before.drop_first());
        }
    }
    proof {
        assert(ns@ == spec_strip_brackets(region));
        assert(spec_netns_id(content@) == Some(ns@));
    }
    Some(ns)
}

/// The namespace-aware resolver: maps a caller's process id to the network
/// namespace it lives in, and that namespace to a file under the backing
/// directory. All four fields come from the mount configuration and never
/// change while the filesystem is served.
pub struct NetnsMapper {
    /// Directory that holds one backing file per network namespace.
    pub backing_directory: Vec<u8>,
    /// Extension given to each backing file's name; empty for none.
    pub extension: Vec<u8>,
    /// Template copied to a missing backing file before it is first served.
    pub default_file: Option<Vec<u8>>,
    /// Root of the process-information pseudo-filesystem.
    pub procfs: Vec<u8>,
}

/// The path of the symlink that names the network namespace of process
/// `pid`: `<procfs>/<pid>/ns/net`.
pub open spec fn spec_link_path(procfs: Seq<u8>, pid: u32) -> Seq<u8> {
    spec_join(spec_join(procfs, spec_dec(pid as nat)), seq![110u8, 115u8, 47u8, 110u8, 101u8, 116u8])
}

/// The backing path an identifier is mapped to: the identifier under the
/// backing directory, with the configured extension applied.
pub open spec fn spec_target_path(backing: Seq<u8>, ext: Seq<u8>, id: Seq<u8>) -> Seq<u8> {
    spec_join(backing, spec_apply_ext(id, ext))
}

/// What resolving a given symlink content yields: the backing path for the
/// parsed identifier, or nothing when the content does not parse.
pub open spec fn spec_resolve(backing: Seq<u8>, ext: Seq<u8>, c: Seq<u8>) -> Option<Seq<u8>> {
    match spec_netns_id(c) {
        Some(id) => Some(spec_target_path(backing, ext, id)),
        None => None,
    }
}

/// Whether the template should be copied over the target: only when a
/// template is configured and the target does not yet exist.
pub fn should_seed(default_configured: bool, target_exists: bool) -> (r: bool)
    ensures
        r == (default_configured && !target_exists),
{
    default_configured && !target_exists
}

impl NetnsMapper {
    /// Build the path of the namespace symlink for process `pid`.
    pub fn netns_link_path(&self, pid: u32) -> (r: Vec<u8>)
        ensures
            r@ == spec_link_path(self.procfs@, pid),
    {
        let pid_part = u32_to_dec(pid);
        let head = join_path(&self.procfs, &pid_part);
        let mut tail: Vec<u8> = Vec::new();
        tail.push(110);
        tail.push(115);
        tail.push(47);
        tail.push(110);
        tail.push(101);
        tail.push(116);
        proof {
            assert(tail@ =~= seq![110u8, 115u8, 47u8, 110u8, 101u8, 116u8]);
        }
        join_path(&head, &tail)
    }

    /// Map a parsed namespace identifier to its backing path.
    pub fn target_path(&self, id: &Vec<u8>) -> (r: Vec<u8>)
        ensures
            r@ == spec_target_path(self.backing_directory@, self.extension@, id@),
    {
        let named = apply_extension(id, &self.extension);
        join_path(&self.backing_directory, &named)
    }

    /// Resolve one symlink content to the backing path it names, or to
    /// nothing when it is not of the form `net:[...]`.
    pub fn resolve_content(&self, content: &Vec<u8>) -> (r: Option<Vec<u8>>)
        ensures
            opt_bytes_view(r) == spec_resolve(self.backing_directory@, self.extension@, content@),
    {
        match parse_netns_id(content) {
            Some(id) => Some(self.target_path(&id)),
            None => None,
        }
    }

    /// Whether the file at `path` exists, by asking for its metadata.
    fn target_exists(&self, path: &Vec<u8>) -> bool {
        match sys_stat(path) {
            Ok(_) => true,
            Err(_) => false,
        }
    }

    /// Copy the configured template over `target` when one is configured
    /// and `target` does not exist yet; a target already present is never
    /// overwritten. A failed copy is reported but does not make the path
    /// unusable: resolution still hands the path out and the next
    /// operation on it reports its own error.
    pub fn seed_if_missing(&self, target: &Vec<u8>) -> (r: Result<(), i32>)
        ensures
            self.default_file is None ==> r is Ok,
    {
        match &self.default_file {
            None => Ok(()),
            Some(def) => {
                let exists = self.target_exists(target);
                if should_seed(true, exists) {
                    crate::seed::copy_file(def, target)
                } else {
                    Ok(())
                }
            },
        }
    }

    /// Look the caller up: read the namespace symlink for its process id,
    /// parse the target, and map the identifier to a backing path,
    /// seeding the path from the template first when one is configured
    /// and the file is missing. An unreadable link or content not of the
    /// form `net:[...]` yields no mapping; a failed seeding copy is
    /// swallowed, since the next operation on the missing file reports
    /// its own error.
    pub fn resolve(&self, rq: UidGidPid) -> (r: Option<Vec<u8>>)
        ensures
            r matches Some(p) ==> exists|c: Seq<u8>|
                spec_resolve(self.backing_directory@, self.extension@, c) == Some(p@),
    {
        let link = self.netns_link_path(rq.pid);
        let content = match sys_readlink(&link) {
            Some(c) => c,
            None => {
                return None;
            },
        };
        let target = match self.resolve_content(&content) {
            Some(t) => t,
            None => {
                return None;
            },
        };
        proof {
            assert(spec_resolve(self.backing_directory@, self.extension@, content@) == Some(
                target@,
            ));
        }
        let _ = self.seed_if_missing(&target);
        Some(target)
    }

    /// Whether a stat mode describes a directory.
    pub fn mode_is_dir(mode: u32) -> (r: bool)
        ensures
            r == (mode & S_IFMT == S_IFDIR),
    {
        mode & S_IFMT == S_IFDIR
    }

    /// Look once at the configuration and report what seems wrong: a
    /// backing directory that is not an accessible directory, a template
    /// that cannot be opened for reading, and a namespace root under
    /// which not even the initial process's namespace link resolves. All
    /// three are warnings for the operator; serving proceeds regardless.
    pub fn sanity_check(&self) -> (r: SanityReport)
        ensures
            self.default_file is None ==> r.default_file_ok,
    {
        let backing_dir_ok = match sys_stat(&self.backing_directory) {
            Ok(st) => Self::mode_is_dir(st.mode),
            Err(_) => false,
        };
        let default_file_ok = match &self.default_file {
            None => true,
            Some(def) => match sys_open(def, O_RDONLY, 0) {
                Ok(fd) => {
                    let _ = sys_close(fd);
                    true
                },
                Err(_) => false,
            },
        };
        let init_link = self.netns_link_path(1);
        let init_link_ok = match sys_readlink(&init_link) {
            Some(_) => true,
            None => false,
        };
        SanityReport { backing_dir_ok, default_file_ok, init_link_ok }
    }
}

/// What the startup sanity pass found; each flag that is false is worth a
/// warning, none is fatal.
#[derive(Copy, Clone, PartialEq, Eq, Structural, Debug)]
pub struct SanityReport {
    /// The backing directory exists and is a directory.
    pub backing_dir_ok: bool,
    /// The configured template, if any, can be opened for reading.
    pub default_file_ok: bool,
    /// The namespace link of the initial process can be read.
    pub init_link_ok: bool,
}

impl Mapper for NetnsMapper {
    /// A mapping this strategy hands out is always the backing path that
    /// some well-formed symlink content resolves to; failure is always
    /// admitted, since the links live on disk.
    open spec fn admits(&self, rq: UidGidPid, r: Option<Seq<u8>>) -> bool {
        r matches Some(p) ==> exists|c: Seq<u8>|
            spec_resolve(self.backing_directory@, self.extension@, c) == Some(p)
    }

    fn map(&self, rq: UidGidPid) -> (r: Option<Vec<u8>>) {
        self.resolve(rq)
    }
}

/// Resolution is a function of the symlink content alone: two resolutions
/// of unchanged content yield the same outcome.
pub proof fn lemma_resolution_deterministic(
    backing: Seq<u8>,
    ext: Seq<u8>,
    c: Seq<u8>,
    r1: Option<Seq<u8>>,
    r2: Option<Seq<u8>>,
)
    requires
        r1 == spec_resolve(backing, ext, c),
        r2 == spec_resolve(backing, ext, c),
    ensures
        r1 == r2,
{
}

/// Content with no `:`, or whose part before the first `:` is not exactly
/// `net`, never resolves, whatever the configuration.
pub proof fn lemma_malformed_content_fails(backing: Seq<u8>, ext: Seq<u8>, c: Seq<u8>)
    requires
        spec_colon_from(c, 0) == c.len() || c.subrange(0, spec_colon_from(c, 0)) != net_token(),
    ensures
        spec_resolve(backing, ext, c) is None,
{
}

} // verus!
