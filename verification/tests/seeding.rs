use resolvconffs::{copy_file, should_seed, NetnsMapper};

fn seed_tmp_path(tag: &str) -> Vec<u8> {
    let pid = nix::unistd::getpid().as_raw();
    format!("/tmp/resolvconffs_seed_{}_{}", tag, pid).into_bytes()
}

fn put_file(path: &[u8], content: &[u8]) {
    let fd = nix::fcntl::open(
        path,
        nix::fcntl::OFlag::O_CREAT | nix::fcntl::OFlag::O_TRUNC | nix::fcntl::OFlag::O_WRONLY,
        nix::sys::stat::Mode::from_bits_truncate(0o600),
    )
    .expect("create seed test file");
    let mut done: usize = 0;
    while done < content.len() {
        done += nix::unistd::write(fd, &content[done..]).expect("write seed test file");
    }
    nix::unistd::close(fd).expect("close seed test file");
}

fn get_file(path: &[u8]) -> Vec<u8> {
    let fd = nix::fcntl::open(
        path,
        nix::fcntl::OFlag::O_RDONLY,
        nix::sys::stat::Mode::empty(),
    )
    .expect("open seed test file");
    let mut out = Vec::new();
    let mut buf = [0u8; 4096];
    loop {
        let n = nix::unistd::read(fd, &mut buf).expect("read seed test file");
        if n == 0 {
            break;
        }
        out.extend_from_slice(&buf[..n]);
    }
    nix::unistd::close(fd).expect("close seed test file");
    out
}

fn drop_file(path: &[u8]) {
    let _ = nix::unistd::unlink(path);
}

fn mapper_with_default(default: &[u8]) -> NetnsMapper {
    NetnsMapper {
        backing_directory: b"/tmp".to_vec(),
        extension: b"conf".to_vec(),
        default_file: Some(default.to_vec()),
        procfs: b"/proc".to_vec(),
    }
}

#[test]
fn seeding_decision_depends_only_on_existence() {
    assert!(should_seed(true, false));
    assert!(!should_seed(true, true));
    assert!(!should_seed(false, false));
    assert!(!should_seed(false, true));
}

#[test]
fn existing_target_is_never_overwritten() {
    let template = seed_tmp_path("tpl_keep");
    let target = seed_tmp_path("target_keep");
    put_file(&template, b"TEMPLATE");
    put_file(&target, b"KEEP ME");
    let m = mapper_with_default(&template);
    m.seed_if_missing(&target).expect("seed over existing target");
    assert_eq!(get_file(&target), b"KEEP ME".to_vec());
    drop_file(&template);
    drop_file(&target);
}

#[test]
fn missing_target_gets_the_template_contents() {
    let template = seed_tmp_path("tpl_fill");
    let target = seed_tmp_path("target_fill");
    drop_file(&target);
    put_file(&template, b"nameserver 192.0.2.1\n");
    let m = mapper_with_default(&template);
    m.seed_if_missing(&target).expect("seed missing target");
    assert_eq!(get_file(&target), b"nameserver 192.0.2.1\n".to_vec());
    drop_file(&template);
    drop_file(&target);
}

#[test]
fn seeding_without_a_template_does_nothing() {
    let target = seed_tmp_path("target_no_tpl");
    drop_file(&target);
    let mut m = mapper_with_default(b"/unused");
    m.default_file = None;
    m.seed_if_missing(&target).expect("no-op seed");
    assert!(nix::sys::stat::stat(&target[..]).is_err());
}

#[test]
fn copying_a_large_template_is_exact() {
    let template = seed_tmp_path("tpl_large");
    let target = seed_tmp_path("target_large");
    drop_file(&target);
    let mut content = Vec::new();
    for i in 0..9000usize {
        content.push((i % 251) as u8);
    }
    put_file(&template, &content);
    copy_file(&template, &target).expect("copy template");
    assert_eq!(get_file(&target), content);
    drop_file(&template);
    drop_file(&target);
}

#[test]
fn copying_from_a_missing_source_fails() {
    let target = seed_tmp_path("target_nosrc");
    let r = copy_file(&b"/no/such/template".to_vec(), &target);
    assert!(r.is_err());
}

#[test]
fn resolution_through_the_real_namespace_link() {
    let pid = nix::unistd::getpid().as_raw();
    let link = format!("/proc/{}/ns/net", pid);
    let target = match nix::fcntl::readlink(link.as_str()) {
        Ok(t) => t,
        // Without a readable namespace link there is nothing to exercise.
        Err(_) => return,
    };
    let content = target.into_string().expect("namespace link is text");
    let dir = seed_tmp_path("backing_dir");
    let _ = nix::unistd::mkdir(&dir[..], nix::sys::stat::Mode::from_bits_truncate(0o700));
    let template = seed_tmp_path("tpl_resolve");
    put_file(&template, b"seeded by resolution\n");
    let m = NetnsMapper {
        backing_directory: dir.clone(),
        extension: b"conf".to_vec(),
        default_file: Some(template.clone()),
        procfs: b"/proc".to_vec(),
    };
    let resolved = m
        .resolve(resolvconffs::UidGidPid { uid: 0, gid: 0, pid: pid as u32 })
        .expect("resolution against the live namespace link");
    // The resolved path is the identifier between the brackets, under the
    // backing directory, with the extension applied.
    let rest = content.strip_prefix("net:").expect("namespace link names net");
    let rest = rest.strip_suffix(']').unwrap_or(rest);
    let id = rest.strip_prefix('[').unwrap_or(rest);
    let mut expected = dir.clone();
    expected.push(b'/');
    expected.extend_from_slice(id.as_bytes());
    expected.extend_from_slice(b".conf");
    assert_eq!(resolved, expected);
    assert_eq!(get_file(&resolved), b"seeded by resolution\n".to_vec());
    drop_file(&resolved);
    drop_file(&template);
    let _ = nix::unistd::unlink(&dir[..]);
}
