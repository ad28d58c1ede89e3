use opfs_9p_server::bridge::{flush_reply, read_buffer, read_reply, size_reply, write_reply};
use opfs_9p_server::device::OpfsVirtioDevice;
use opfs_9p_server::error::{FsError, HostError, HostErrorKind, NamespaceOp};
use opfs_9p_server::records::{HostDirEntry, HostMetadata, JsDirEntry, JsStat};

fn failure(kind: HostErrorKind, detail: &str) -> HostError {
    HostError { kind, detail: detail.to_string() }
}

fn io(detail: &str) -> FsError {
    FsError::IoFailure { detail: detail.to_string() }
}

fn device() -> OpfsVirtioDevice<u8> {
    OpfsVirtioDevice::new()
}

#[test]
fn read_buffer_is_zeroed() {
    assert_eq!(read_buffer(0), Vec::<u8>::new());
    assert_eq!(read_buffer(4), vec![0u8, 0, 0, 0]);
    assert_eq!(read_buffer(70_000).len(), 70_000);
}

#[test]
fn read_truncates_to_what_the_host_reports() {
    assert_eq!(read_reply(vec![1, 2, 3, 4], Ok(0)), Ok(vec![]));
    assert_eq!(read_reply(vec![1, 2, 3, 4], Ok(3)), Ok(vec![1, 2, 3]));
    assert_eq!(read_reply(vec![1, 2, 3, 4], Ok(4)), Ok(vec![1, 2, 3, 4]));
    assert_eq!(read_reply(vec![1, 2, 3, 4], Ok(9)), Ok(vec![1, 2, 3, 4]));
    assert_eq!(read_reply(vec![1, 2, 3, 4], Ok(u64::MAX)), Ok(vec![1, 2, 3, 4]));
    assert_eq!(read_reply(vec![], Ok(0)), Ok(vec![]));
}

#[test]
fn read_failure_is_an_io_failure() {
    assert_eq!(read_reply(vec![0; 8], Err(failure(HostErrorKind::Other, "boom"))), Err(io("boom")));
    assert_eq!(read_reply(vec![0; 8], Err(failure(HostErrorKind::NotFound, "gone"))), Err(io("gone")));
}

#[test]
fn write_reports_what_was_committed() {
    assert_eq!(write_reply(Ok(0)), Ok(0));
    assert_eq!(write_reply(Ok(5)), Ok(5));
    assert_eq!(write_reply(Ok(4_294_967_295)), Ok(u32::MAX));
    assert_eq!(write_reply(Ok(4_294_967_296)), Ok(u32::MAX));
    assert_eq!(write_reply(Err(failure(HostErrorKind::Other, "full"))), Err(io("full")));
}

#[test]
fn size_and_flush_pass_the_host_answer_on() {
    assert_eq!(size_reply(Ok(12_345_678_901)), Ok(12_345_678_901));
    assert_eq!(size_reply(Err(failure(HostErrorKind::Other, "closed"))), Err(io("closed")));
    assert_eq!(flush_reply(Ok(())), Ok(()));
    assert_eq!(flush_reply(Err(failure(HostErrorKind::Other, "disk"))), Err(io("disk")));
}

#[test]
fn stat_has_no_modification_time() {
    let d = device();
    let meta = HostMetadata { len: 42, is_dir: false };
    assert_eq!(d.stat(Ok(meta)), Ok(JsStat { size: 42, is_directory: false, mtime: 0 }));
    let dir = HostMetadata { len: 0, is_dir: true };
    assert_eq!(d.stat(Ok(dir)), Ok(JsStat { size: 0, is_directory: true, mtime: 0 }));
    assert_eq!(d.stat(Err(failure(HostErrorKind::NotFound, "x"))), Err(FsError::NotFound));
    assert_eq!(d.stat(Err(failure(HostErrorKind::Other, "x"))), Err(io("x")));
}

#[test]
fn namespace_failures_by_operation() {
    let d = device();
    let absent = || Err(failure(HostErrorKind::NotFound, "absent"));
    let present = || Err(failure(HostErrorKind::AlreadyExists, "present"));
    let other = || Err(failure(HostErrorKind::Other, "other"));
    assert_eq!(d.mkdir(Ok(())), Ok(()));
    assert_eq!(d.mkdir(present()), Err(FsError::AlreadyExists));
    assert_eq!(d.mkdir(absent()), Err(io("absent")));
    assert_eq!(d.mkdir(other()), Err(io("other")));
    assert_eq!(d.unlink(Ok(())), Ok(()));
    assert_eq!(d.unlink(absent()), Err(FsError::NotFound));
    assert_eq!(d.unlink(present()), Err(io("present")));
    assert_eq!(d.unlink(other()), Err(io("other")));
    assert_eq!(d.rmdir(Ok(())), Ok(()));
    assert_eq!(d.rmdir(absent()), Err(FsError::NotFound));
    assert_eq!(d.rmdir(other()), Err(io("other")));
    assert_eq!(d.rename(Ok(())), Ok(()));
    assert_eq!(d.rename(absent()), Err(FsError::NotFound));
    assert_eq!(d.rename(present()), Err(io("present")));
}

#[test]
fn failure_mapping_is_exact() {
    let e = |k| failure(k, "d");
    assert_eq!(FsError::from_open(e(HostErrorKind::NotFound)), FsError::NotFound);
    assert_eq!(
        FsError::from_open(e(HostErrorKind::Other)),
        FsError::OpenFailed { detail: "d".to_string() }
    );
    assert_eq!(FsError::from_io(e(HostErrorKind::AlreadyExists)), io("d"));
    assert_eq!(
        FsError::from_namespace(NamespaceOp::Exists, e(HostErrorKind::NotFound)),
        io("d")
    );
    assert_eq!(
        FsError::from_namespace(NamespaceOp::Readdir, e(HostErrorKind::NotFound)),
        FsError::NotFound
    );
    assert_eq!(
        FsError::from_namespace(NamespaceOp::Stat, e(HostErrorKind::AlreadyExists)),
        io("d")
    );
    assert_eq!(
        FsError::from_namespace(NamespaceOp::Mkdir, e(HostErrorKind::AlreadyExists)),
        FsError::AlreadyExists
    );
}

#[test]
fn readdir_keeps_the_host_order() {
    let d = device();
    let items = vec![
        Ok(HostDirEntry { name: "z".to_string(), is_dir: false }),
        Ok(HostDirEntry { name: "a".to_string(), is_dir: true }),
        Ok(HostDirEntry { name: "m".to_string(), is_dir: false }),
    ];
    let out = d.readdir(Ok(items)).unwrap();
    assert_eq!(out.len(), 3);
    assert_eq!(out[0], JsDirEntry { name: "z".to_string(), is_directory: false });
    assert_eq!(out[1].name(), "a");
    assert!(out[1].is_directory);
    assert_eq!(out[2].name(), "m");
    assert!(!out[2].is_directory);
    assert_eq!(d.readdir(Ok(vec![])), Ok(vec![]));
}

#[test]
fn readdir_reports_the_first_failure() {
    let d = device();
    let items = vec![
        Ok(HostDirEntry { name: "a".to_string(), is_dir: false }),
        Err(failure(HostErrorKind::Other, "first")),
        Ok(HostDirEntry { name: "b".to_string(), is_dir: false }),
        Err(failure(HostErrorKind::NotFound, "second")),
    ];
    assert_eq!(d.readdir(Ok(items)), Err(io("first")));
    let items = vec![Err(failure(HostErrorKind::NotFound, "gone"))];
    assert_eq!(d.readdir(Ok(items)), Err(FsError::NotFound));
    assert_eq!(d.readdir(Err(failure(HostErrorKind::NotFound, "x"))), Err(FsError::NotFound));
    assert_eq!(d.readdir(Err(failure(HostErrorKind::Other, "x"))), Err(io("x")));
}

#[test]
fn absence_is_an_answer_of_the_existence_check() {
    let d = device();
    assert_eq!(d.try_exists(Ok(true)), Ok(true));
    assert_eq!(d.try_exists(Ok(false)), Ok(false));
    assert_eq!(d.try_exists(Err(failure(HostErrorKind::NotFound, "x"))), Ok(false));
    assert_eq!(d.try_exists(Err(failure(HostErrorKind::Other, "x"))), Err(io("x")));
    assert_eq!(d.try_exists(Err(failure(HostErrorKind::AlreadyExists, "y"))), Err(io("y")));
}

#[test]
fn failures_have_a_text() {
    assert_eq!(FsError::InvalidHandle.message(), "Invalid FID");
    assert_eq!(FsError::NotFound.message(), "Not found");
    assert_eq!(FsError::AlreadyExists.message(), "Already exists");
    assert_eq!(FsError::OpenFailed { detail: "denied".to_string() }.message(), "denied");
    assert_eq!(io("disk gone").message(), "disk gone");
}
