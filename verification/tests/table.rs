use opfs_9p_server::device::OpfsVirtioDevice;
use opfs_9p_server::error::{FsError, HostError, HostErrorKind};
use opfs_9p_server::mode::OpenMode;

fn host_error(kind: HostErrorKind, detail: &str) -> HostError {
    HostError { kind, detail: detail.to_string() }
}

#[test]
fn identifiers_start_at_one_and_increase() {
    let mut d: OpfsVirtioDevice<&str> = OpfsVirtioDevice::new();
    assert!(d.can_allocate());
    assert_eq!(d.open(Ok("a")), Ok(1));
    assert_eq!(d.open(Ok("b")), Ok(2));
    assert_eq!(d.allocate("c"), 3);
    assert_eq!(d.lookup(1), Ok(&"a"));
    assert_eq!(d.lookup(2), Ok(&"b"));
    assert_eq!(d.lookup(3), Ok(&"c"));
}

#[test]
fn zero_is_never_a_live_identifier() {
    let mut d: OpfsVirtioDevice<u8> = OpfsVirtioDevice::new();
    assert_eq!(d.lookup(0), Err(FsError::InvalidHandle));
    let id = d.allocate(5);
    assert_ne!(id, 0);
    assert_eq!(d.lookup(0), Err(FsError::InvalidHandle));
}

#[test]
fn live_identifiers_are_distinct() {
    let mut d: OpfsVirtioDevice<usize> = OpfsVirtioDevice::new();
    let mut seen: Vec<u64> = Vec::new();
    for round in 0..50usize {
        let id = d.open(Ok(round)).unwrap();
        assert!(!seen.contains(&id));
        seen.push(id);
        if round % 3 == 0 {
            assert_eq!(d.close(id), Ok(()));
        }
    }
    assert_eq!(seen.len(), 50);
}

#[test]
fn open_failure_allocates_nothing() {
    let mut d: OpfsVirtioDevice<u8> = OpfsVirtioDevice::new();
    let refused = d.open(Err(host_error(HostErrorKind::Other, "permission denied")));
    assert_eq!(refused, Err(FsError::OpenFailed { detail: "permission denied".to_string() }));
    assert_eq!(d.lookup(1), Err(FsError::InvalidHandle));
    let absent = d.open(Err(host_error(HostErrorKind::NotFound, "no such file")));
    assert_eq!(absent, Err(FsError::NotFound));
    let present = d.open(Err(host_error(HostErrorKind::AlreadyExists, "exists")));
    assert_eq!(present, Err(FsError::OpenFailed { detail: "exists".to_string() }));
    assert_eq!(d.open(Ok(9)), Ok(1));
}

#[test]
fn close_twice_is_rejected() {
    let mut d: OpfsVirtioDevice<u8> = OpfsVirtioDevice::new();
    let id = d.open(Ok(1)).unwrap();
    assert_eq!(d.close(id), Ok(()));
    assert_eq!(d.close(id), Err(FsError::InvalidHandle));
}

#[test]
fn close_of_unknown_identifier_changes_nothing() {
    let mut d: OpfsVirtioDevice<u8> = OpfsVirtioDevice::new();
    let id = d.open(Ok(4)).unwrap();
    assert_eq!(d.close(id + 1), Err(FsError::InvalidHandle));
    assert_eq!(d.release(0), Err(FsError::InvalidHandle));
    assert_eq!(d.lookup(id), Ok(&4));
    assert_eq!(d.open(Ok(5)), Ok(id + 1));
}

#[test]
fn closed_identifier_is_never_reused() {
    let mut d: OpfsVirtioDevice<u32> = OpfsVirtioDevice::new();
    let first = d.open(Ok(10)).unwrap();
    assert_eq!(d.close(first), Ok(()));
    for n in 0..20u32 {
        let id = d.open(Ok(n)).unwrap();
        assert_ne!(id, first);
        assert_eq!(d.lookup(first), Err(FsError::InvalidHandle));
        if n % 2 == 0 {
            assert_eq!(d.close(id), Ok(()));
        }
    }
    assert_eq!(d.close(first), Err(FsError::InvalidHandle));
}

#[test]
fn lookup_mut_changes_the_resource_in_place() {
    let mut d: OpfsVirtioDevice<Vec<u8>> = OpfsVirtioDevice::new();
    let a = d.open(Ok(vec![1])).unwrap();
    let b = d.open(Ok(vec![2])).unwrap();
    d.lookup_mut(a).unwrap().push(7);
    assert_eq!(d.lookup(a), Ok(&vec![1, 7]));
    assert_eq!(d.lookup(b), Ok(&vec![2]));
    assert_eq!(d.lookup_mut(b + 1), Err(FsError::InvalidHandle));
    assert_eq!(d.open(Ok(vec![])), Ok(3));
}

#[test]
fn flags_pick_the_mode_by_precedence() {
    assert_eq!(OpenMode::from_flags(0), OpenMode::ReadOnly);
    assert_eq!(OpenMode::from_flags(1), OpenMode::WriteCreate);
    assert_eq!(OpenMode::from_flags(2), OpenMode::ReadWriteCreate);
    assert_eq!(OpenMode::from_flags(3), OpenMode::WriteCreate);
    assert_eq!(OpenMode::from_flags(4), OpenMode::ReadOnly);
    assert_eq!(OpenMode::from_flags(6), OpenMode::ReadWriteCreate);
    assert_eq!(OpenMode::from_flags(u32::MAX), OpenMode::WriteCreate);
    assert_eq!(OpenMode::from_flags(u32::MAX - 1), OpenMode::ReadWriteCreate);
    assert_eq!(OpenMode::from_flags(u32::MAX - 3), OpenMode::ReadOnly);
}

#[test]
fn modes_ask_the_host_for_what_they_stand_for() {
    let w = OpenMode::WriteCreate;
    assert_eq!((w.read(), w.write(), w.create()), (false, true, true));
    let rw = OpenMode::ReadWriteCreate;
    assert_eq!((rw.read(), rw.write(), rw.create()), (true, true, true));
    let r = OpenMode::ReadOnly;
    assert_eq!((r.read(), r.write(), r.create()), (true, false, false));
}
