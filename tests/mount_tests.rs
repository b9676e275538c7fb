use lxc_builder::mount::MountSession;

#[test]
fn plan_is_fixed() {
    let s: MountSession<u32> = MountSession::new("./workdir/");
    let got: Vec<(String, String, String, Option<String>)> = (0..4)
        .map(|i| s.mount(i))
        .map(|m| (m.source.clone(), m.target.clone(), m.fstype.clone(), m.data.clone()))
        .collect();
    assert_eq!(
        got,
        vec![
            ("devtmpfs".to_string(), "./workdir/dev".to_string(), "devtmpfs".to_string(), None),
            ("devpts".to_string(), "./workdir/dev/pts".to_string(), "devpts".to_string(), Some("gid=5".to_string())),
            ("proc".to_string(), "./workdir/proc".to_string(), "proc".to_string(), None),
            ("sysfs".to_string(), "./workdir/sys".to_string(), "sysfs".to_string(), None),
        ]
    );
}

#[test]
fn release_reverses_acquisition() {
    let mut s: MountSession<u32> = MountSession::new("/r");
    let mut n = 0u32;
    while let Some(i) = s.next_mount() {
        assert_eq!(i as u32, n);
        n += 1;
        s.record(Some(n));
    }
    assert_eq!(n, 4);
    assert_eq!(s.release_order(), vec![4, 3, 2, 1]);
}

#[test]
fn third_mount_failure_leaves_two() {
    let mut s: MountSession<u32> = MountSession::new("/r");
    s.record(Some(1));
    s.record(Some(2));
    assert_eq!(s.next_mount(), Some(2));
    s.record(None);
    assert!(s.is_failed());
    assert_eq!(s.next_mount(), None);
    assert_eq!(s.held_count(), 2);
    assert_eq!(s.release_order(), vec![2, 1]);
}
