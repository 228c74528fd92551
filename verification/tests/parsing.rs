use resolvconffs::{
    apply_extension, join_path, parse_netns_id, u32_to_dec, NetnsMapper,
};

fn mapper(backing: &str, ext: &str, default_file: Option<&str>, procfs: &str) -> NetnsMapper {
    NetnsMapper {
        backing_directory: backing.as_bytes().to_vec(),
        extension: ext.as_bytes().to_vec(),
        default_file: default_file.map(|d| d.as_bytes().to_vec()),
        procfs: procfs.as_bytes().to_vec(),
    }
}

#[test]
fn parse_well_formed_content() {
    let r = parse_netns_id(&b"net:[4026531992]".to_vec());
    assert_eq!(r, Some(b"4026531992".to_vec()));
}

#[test]
fn parse_wrong_prefix_fails() {
    let r = parse_netns_id(&b"foo:[123]".to_vec());
    assert_eq!(r, None);
}

#[test]
fn parse_without_colon_fails() {
    assert_eq!(parse_netns_id(&b"net[123]".to_vec()), None);
    assert_eq!(parse_netns_id(&b"".to_vec()), None);
}

#[test]
fn parse_prefix_must_be_exact() {
    assert_eq!(parse_netns_id(&b"Net:[1]".to_vec()), None);
    assert_eq!(parse_netns_id(&b"nets:[1]".to_vec()), None);
    assert_eq!(parse_netns_id(&b"ne:[1]".to_vec()), None);
}

#[test]
fn parse_strips_one_bracket_each_side() {
    // Exactly one trailing `]` and one leading `[` go; what stands between
    // the brackets is kept verbatim, brackets of its own included.
    assert_eq!(parse_netns_id(&b"net:[[7]".to_vec()), Some(b"[7".to_vec()));
    assert_eq!(parse_netns_id(&b"net:[[12]]]".to_vec()), Some(b"[12]]".to_vec()));
    assert_eq!(parse_netns_id(&b"net:12".to_vec()), Some(b"12".to_vec()));
    assert_eq!(parse_netns_id(&b"net:".to_vec()), Some(b"".to_vec()));
    assert_eq!(parse_netns_id(&b"net:[]".to_vec()), Some(b"".to_vec()));
}

#[test]
fn parse_is_idempotent_on_unchanged_content() {
    let good = b"net:[77]".to_vec();
    let bad = b"mnt:[77]".to_vec();
    assert_eq!(parse_netns_id(&good), parse_netns_id(&good));
    assert_eq!(parse_netns_id(&bad), parse_netns_id(&bad));
    assert_eq!(parse_netns_id(&bad), None);
}

#[test]
fn decimal_digits_of_pids() {
    assert_eq!(u32_to_dec(0), b"0".to_vec());
    assert_eq!(u32_to_dec(42), b"42".to_vec());
    assert_eq!(u32_to_dec(10), b"10".to_vec());
    assert_eq!(u32_to_dec(4294967295), b"4294967295".to_vec());
}

#[test]
fn extension_is_applied_and_replaces() {
    let conf = b"conf".to_vec();
    assert_eq!(
        apply_extension(&b"4026531992".to_vec(), &conf),
        b"4026531992.conf".to_vec()
    );
    assert_eq!(apply_extension(&b"a.b".to_vec(), &conf), b"a.conf".to_vec());
    assert_eq!(apply_extension(&b"a.b.c".to_vec(), &conf), b"a.b.conf".to_vec());
    assert_eq!(apply_extension(&b".hidden".to_vec(), &conf), b".hidden.conf".to_vec());
    assert_eq!(apply_extension(&b"x".to_vec(), &b"".to_vec()), b"x".to_vec());
    // Only the last path component can carry an extension: a dot in an
    // earlier component is not one.
    assert_eq!(apply_extension(&b"a.b/c".to_vec(), &conf), b"a.b/c.conf".to_vec());
    assert_eq!(apply_extension(&b"dir/.hidden".to_vec(), &conf), b"dir/.hidden.conf".to_vec());
}

#[test]
fn join_inserts_single_separator() {
    assert_eq!(join_path(&b"/etc".to_vec(), &b"x".to_vec()), b"/etc/x".to_vec());
    assert_eq!(join_path(&b"/etc/".to_vec(), &b"x".to_vec()), b"/etc/x".to_vec());
    assert_eq!(join_path(&b"".to_vec(), &b"x".to_vec()), b"x".to_vec());
}

#[test]
fn link_path_for_pid() {
    let m = mapper("/etc/netns-files", "conf", None, "/proc");
    assert_eq!(m.netns_link_path(42), b"/proc/42/ns/net".to_vec());
    assert_eq!(m.netns_link_path(1), b"/proc/1/ns/net".to_vec());
}

#[test]
fn scenario_pid_42_resolves_to_conf_file() {
    let m = mapper("/etc/netns-files", "conf", None, "/proc");
    let r = m.resolve_content(&b"net:[4026531992]".to_vec());
    assert_eq!(r, Some(b"/etc/netns-files/4026531992.conf".to_vec()));
}

#[test]
fn scenario_wrong_prefix_produces_no_backing_path() {
    let m = mapper("/etc/netns-files", "conf", None, "/proc");
    assert_eq!(m.resolve_content(&b"foo:[123]".to_vec()), None);
}

#[test]
fn resolution_without_extension() {
    let m = mapper("/var/lib/ns", "", None, "/proc");
    let r = m.resolve_content(&b"net:[123]".to_vec());
    assert_eq!(r, Some(b"/var/lib/ns/123".to_vec()));
}
