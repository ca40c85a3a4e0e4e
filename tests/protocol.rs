use fuse_ll::abi::{
    Platform, FATTR_ATIME, FATTR_SIZE, FUSE_ACCESS, FUSE_ASYNC_READ, FUSE_DESTROY, FUSE_FORGET,
    FUSE_FSYNC, FUSE_FSYNCDIR, FUSE_GETATTR, FUSE_GETXTIMES, FUSE_INIT, FUSE_INTERRUPT,
    FUSE_LINK, FUSE_LOOKUP, FUSE_READDIR, FUSE_RELEASE, FUSE_RENAME, FUSE_SETATTR,
    FUSE_SETXATTR, FUSE_SYMLINK, FUSE_WRITE, FUSE_XTIMES,
};
use fuse_ll::dispatch::{time_from, Dispatch, FsCall, SetAttrArgs, TimeSpec};
use fuse_ll::reply::{Reply, ReplyDirectory};
use fuse_ll::request::{Operation, Request, RequestHeader, Span};
use fuse_ll::session::{ErrorCodes, Session, SessionState};

fn header_bytes(len: u32, opcode: u32, unique: u64, nodeid: u64) -> Vec<u8> {
    let h = RequestHeader { len, opcode, unique, nodeid, uid: 1000, gid: 100, pid: 4242 };
    h.encode()
}

fn request(opcode: u32, unique: u64, nodeid: u64, body: &[u8]) -> Vec<u8> {
    let mut v = header_bytes((40 + body.len()) as u32, opcode, unique, nodeid);
    v.extend_from_slice(body);
    v
}

fn init_body(major: u32, minor: u32, readahead: u32, flags: u32) -> Vec<u8> {
    let mut b = Vec::new();
    for x in [major, minor, readahead, flags] {
        b.extend_from_slice(&x.to_le_bytes());
    }
    b
}

fn error_reply(unique: u64, err: i32) -> Vec<u8> {
    let mut v = Vec::new();
    v.extend_from_slice(&16u32.to_le_bytes());
    v.extend_from_slice(&(-err).to_le_bytes());
    v.extend_from_slice(&unique.to_le_bytes());
    v
}

fn u32_at(b: &[u8], i: usize) -> u32 {
    u32::from_le_bytes([b[i], b[i + 1], b[i + 2], b[i + 3]])
}

fn u64_at(b: &[u8], i: usize) -> u64 {
    let mut a = [0u8; 8];
    a.copy_from_slice(&b[i..i + 8]);
    u64::from_le_bytes(a)
}

fn dispatch_once(se: &mut Session, buf: &[u8]) -> Dispatch {
    let req = Request::new(buf, se.platform).expect("decodes");
    assert!(!req.violates_integrity(se));
    req.dispatch(se)
}

fn initialized_session() -> Session {
    let mut se = Session::new(Platform::Generic, 65536, 16 * 1024 * 1024);
    let buf = request(FUSE_INIT, 1, 0, &init_body(7, 31, 131072, 0));
    match dispatch_once(&mut se, &buf) {
        Dispatch::Init { arg, reply } => {
            se.complete_init(arg, reply, Ok(()));
        }
        other => panic!("unexpected {:?}", other),
    }
    assert_eq!(se.state, SessionState::Initialized);
    se
}

fn call_of(d: Dispatch) -> (FsCall, u64) {
    match d {
        Dispatch::Call { call, reply } => (call, reply.unique()),
        other => panic!("unexpected {:?}", other),
    }
}

#[test]
fn header_fields_round_trip() {
    let buf = request(FUSE_GETATTR, 0x0102_0304_0506_0708, 0xdead_beef_0000_0001, &[]);
    let req = Request::new(&buf, Platform::Generic).expect("decodes");
    assert_eq!(req.unique(), 0x0102_0304_0506_0708);
    assert_eq!(req.nodeid(), 0xdead_beef_0000_0001);
    assert_eq!(req.uid(), 1000);
    assert_eq!(req.gid(), 100);
    assert_eq!(req.pid(), 4242);
    assert_eq!(req.header().encode(), buf);
    assert_eq!(req.operation(), Operation::GetAttr);
}

#[test]
fn rejects_malformed_buffers() {
    let short = vec![0u8; 39];
    assert!(Request::new(&short, Platform::Generic).is_none());
    let mut wrong_len = request(FUSE_GETATTR, 1, 1, &[]);
    wrong_len.push(0);
    assert!(Request::new(&wrong_len, Platform::Generic).is_none());
    let unknown = request(7, 1, 1, &[]);
    assert!(Request::new(&unknown, Platform::Generic).is_none());
    let xtimes = request(FUSE_GETXTIMES, 1, 1, &[]);
    assert!(Request::new(&xtimes, Platform::Generic).is_none());
    assert_eq!(
        Request::new(&xtimes, Platform::MacOs).expect("decodes").operation(),
        Operation::GetXTimes
    );
    let unterminated = request(FUSE_LOOKUP, 1, 1, b"name");
    assert!(Request::new(&unterminated, Platform::Generic).is_none());
    let cut_short = request(FUSE_ACCESS, 1, 1, &[1, 2, 3]);
    assert!(Request::new(&cut_short, Platform::Generic).is_none());
}

#[test]
fn decodes_names() {
    let buf = request(FUSE_SYMLINK, 1, 1, b"link\0target\0");
    let req = Request::new(&buf, Platform::Generic).expect("decodes");
    match req.operation() {
        Operation::SymLink { name, link } => {
            assert_eq!(req.bytes(name).unwrap(), b"link");
            assert_eq!(req.bytes(link).unwrap(), b"target");
        }
        other => panic!("unexpected {:?}", other),
    }
    let mut body = 99u64.to_le_bytes().to_vec();
    body.extend_from_slice(b"a\0bc\0");
    let buf = request(FUSE_RENAME, 1, 5, &body);
    let req = Request::new(&buf, Platform::Generic).expect("decodes");
    let mut se = initialized_session();
    let (call, _) = call_of(req.dispatch(&mut se));
    match call {
        FsCall::Rename { parent, name, newparent, newname } => {
            assert_eq!(parent, 5);
            assert_eq!(newparent, 99);
            assert_eq!(req.bytes(name).unwrap(), b"a");
            assert_eq!(req.bytes(newname).unwrap(), b"bc");
        }
        other => panic!("unexpected {:?}", other),
    }
    assert!(req.bytes(Span { start: 3, end: 2 }).is_none());
}

#[test]
fn link_swaps_node_ids() {
    let mut se = initialized_session();
    let mut body = 11u64.to_le_bytes().to_vec();
    body.extend_from_slice(b"n\0");
    let buf = request(FUSE_LINK, 3, 22, &body);
    let (call, _) = call_of(dispatch_once(&mut se, &buf));
    match call {
        FsCall::Link { ino, newparent, .. } => {
            assert_eq!(ino, 11);
            assert_eq!(newparent, 22);
        }
        other => panic!("unexpected {:?}", other),
    }
}

#[test]
fn every_reply_echoes_correlation_id() {
    let mut se = Session::new(Platform::Generic, 65536, 4096);
    let buf = request(FUSE_GETATTR, 0xabcdef, 1, &[]);
    match dispatch_once(&mut se, &buf) {
        Dispatch::Reply(b) => assert_eq!(u64_at(&b, 8), 0xabcdef),
        other => panic!("unexpected {:?}", other),
    }
    let mut se = initialized_session();
    let buf = request(FUSE_GETATTR, 0x77, 1, &[]);
    let (_, unique) = call_of(dispatch_once(&mut se, &buf));
    assert_eq!(unique, 0x77);
    let buf = request(FUSE_DESTROY, 0x78, 0, &[]);
    match dispatch_once(&mut se, &buf) {
        Dispatch::Destroy(b) => assert_eq!(u64_at(&b, 8), 0x78),
        other => panic!("unexpected {:?}", other),
    }
}

#[test]
fn handshake_with_old_minor_is_rejected() {
    let mut se = Session::new(Platform::Generic, 65536, 4096);
    let buf = request(FUSE_INIT, 9, 0, &init_body(7, 5, 131072, 0));
    match dispatch_once(&mut se, &buf) {
        Dispatch::Reply(b) => assert_eq!(b, error_reply(9, libc::EPROTO)),
        other => panic!("unexpected {:?}", other),
    }
    assert_eq!(se.state, SessionState::Uninitialized);
}

#[test]
fn handshake_caps_readahead() {
    let mut se = Session::new(Platform::Generic, 65536, 4096);
    let buf = request(FUSE_INIT, 9, 0, &init_body(7, 31, 131072, 0xffff_ffff));
    let bytes = match dispatch_once(&mut se, &buf) {
        Dispatch::Init { arg, reply } => se.complete_init(arg, reply, Ok(())),
        other => panic!("unexpected {:?}", other),
    };
    assert_eq!(se.state, SessionState::Initialized);
    assert_eq!((se.proto_major, se.proto_minor), (7, 31));
    assert_eq!(u32_at(&bytes, 0), 40);
    assert_eq!(u32_at(&bytes, 4), 0);
    assert_eq!(u64_at(&bytes, 8), 9);
    assert_eq!(u32_at(&bytes, 16), 7);
    assert_eq!(u32_at(&bytes, 20), 8);
    assert_eq!(u32_at(&bytes, 24), 65536);
    assert_eq!(u32_at(&bytes, 28), FUSE_ASYNC_READ);
    assert_eq!(u32_at(&bytes, 36), 4096);
}

#[test]
fn handshake_keeps_small_readahead_and_platform_flags() {
    let mut se = Session::new(Platform::MacOs, 65536, 4096);
    let buf = request(FUSE_INIT, 2, 0, &init_body(7, 8, 4096, FUSE_XTIMES | 0x10));
    let bytes = match dispatch_once(&mut se, &buf) {
        Dispatch::Init { arg, reply } => se.complete_init(arg, reply, Ok(())),
        other => panic!("unexpected {:?}", other),
    };
    assert_eq!(u32_at(&bytes, 24), 4096);
    assert_eq!(u32_at(&bytes, 28), FUSE_XTIMES);
}

#[test]
fn handshake_fails_when_filesystem_init_fails() {
    let mut se = Session::new(Platform::Generic, 65536, 4096);
    let buf = request(FUSE_INIT, 4, 0, &init_body(7, 12, 4096, 0));
    let bytes = match dispatch_once(&mut se, &buf) {
        Dispatch::Init { arg, reply } => se.complete_init(arg, reply, Err(libc::EACCES)),
        other => panic!("unexpected {:?}", other),
    };
    assert_eq!(bytes, error_reply(4, libc::EACCES));
    assert_eq!(se.state, SessionState::Uninitialized);
    assert_eq!((se.proto_major, se.proto_minor), (0, 0));
}

#[test]
fn second_handshake_is_a_sequencing_violation() {
    let mut se = initialized_session();
    let buf = request(FUSE_INIT, 5, 0, &init_body(7, 6, 1, 0));
    match dispatch_once(&mut se, &buf) {
        Dispatch::Reply(b) => assert_eq!(b, error_reply(5, libc::EIO)),
        other => panic!("unexpected {:?}", other),
    }
    assert_eq!(se.state, SessionState::Initialized);
    assert_eq!((se.proto_major, se.proto_minor), (7, 31));
}

#[test]
fn operations_before_handshake_get_io_error() {
    for opcode in [FUSE_GETATTR, FUSE_DESTROY, FUSE_INTERRUPT, FUSE_FORGET] {
        let mut se = Session::new(Platform::Generic, 65536, 4096);
        let buf = request(opcode, 6, 1, &[0u8; 8]);
        match dispatch_once(&mut se, &buf) {
            Dispatch::Reply(b) => assert_eq!(b, error_reply(6, libc::EIO)),
            other => panic!("unexpected {:?}", other),
        }
        assert_eq!(se.state, SessionState::Uninitialized);
    }
}

#[test]
fn operations_after_teardown_get_io_error() {
    let mut se = initialized_session();
    let buf = request(FUSE_DESTROY, 7, 0, &[]);
    match dispatch_once(&mut se, &buf) {
        Dispatch::Destroy(b) => {
            assert_eq!(b.len(), 16);
            assert_eq!(u32_at(&b, 4), 0);
        }
        other => panic!("unexpected {:?}", other),
    }
    assert_eq!(se.state, SessionState::Destroyed);
    let init = init_body(7, 8, 4096, 0);
    for (opcode, body) in [(FUSE_GETATTR, &[][..]), (FUSE_DESTROY, &[][..]), (FUSE_INIT, &init[..])] {
        let buf = request(opcode, 8, 1, body);
        match dispatch_once(&mut se, &buf) {
            Dispatch::Reply(b) => assert_eq!(b, error_reply(8, libc::EIO)),
            other => panic!("unexpected {:?}", other),
        }
        assert_eq!(se.state, SessionState::Destroyed);
    }
}

#[test]
fn interrupt_is_not_implemented() {
    let mut se = initialized_session();
    let buf = request(FUSE_INTERRUPT, 10, 0, &3u64.to_le_bytes());
    match dispatch_once(&mut se, &buf) {
        Dispatch::Reply(b) => assert_eq!(b, error_reply(10, libc::ENOSYS)),
        other => panic!("unexpected {:?}", other),
    }
}

fn setattr_body(valid: u32, size: u64, atime: u64, atimensec: u32) -> Vec<u8> {
    let mut b = vec![0u8; 88];
    b[0..4].copy_from_slice(&valid.to_le_bytes());
    b[8..16].copy_from_slice(&77u64.to_le_bytes());
    b[16..24].copy_from_slice(&size.to_le_bytes());
    b[32..40].copy_from_slice(&atime.to_le_bytes());
    b[56..60].copy_from_slice(&atimensec.to_le_bytes());
    b[68..72].copy_from_slice(&0o644u32.to_le_bytes());
    b
}

#[test]
fn setattr_size_only() {
    let mut se = initialized_session();
    let buf = request(FUSE_SETATTR, 11, 3, &setattr_body(FATTR_SIZE, 4096, 5, 6));
    let (call, _) = call_of(dispatch_once(&mut se, &buf));
    let expected = SetAttrArgs {
        mode: None,
        uid: None,
        gid: None,
        size: Some(4096),
        atime: None,
        mtime: None,
        fh: None,
        crtime: None,
        chgtime: None,
        bkuptime: None,
        flags: None,
    };
    assert_eq!(call, FsCall::SetAttr { ino: 3, attrs: expected });
}

#[test]
fn setattr_times_are_normalized_or_now() {
    let mut se = initialized_session();
    let buf = request(FUSE_SETATTR, 12, 3, &setattr_body(FATTR_ATIME, 0, 10, 2_500_000_000));
    match call_of(dispatch_once(&mut se, &buf)).0 {
        FsCall::SetAttr { attrs, .. } => {
            assert_eq!(attrs.atime, Some(TimeSpec::At { secs: 12, nanos: 500_000_000 }));
            assert_eq!(attrs.size, None);
        }
        other => panic!("unexpected {:?}", other),
    }
    assert_eq!(time_from(u64::MAX, 0), TimeSpec::Now);
    assert_eq!(time_from(i64::MAX as u64, 999_999_999), TimeSpec::At {
        secs: i64::MAX as u64,
        nanos: 999_999_999,
    });
    assert_eq!(time_from(i64::MAX as u64, 1_000_000_000), TimeSpec::Now);
}

#[test]
fn forget_sends_nothing() {
    let mut se = initialized_session();
    let buf = request(FUSE_FORGET, 13, 42, &5u64.to_le_bytes());
    match dispatch_once(&mut se, &buf) {
        Dispatch::Forget { ino, nlookup } => assert_eq!((ino, nlookup), (42, 5)),
        other => panic!("unexpected {:?}", other),
    }
}

fn write_body(size: u32, payload: &[u8]) -> Vec<u8> {
    let mut b = Vec::new();
    b.extend_from_slice(&1u64.to_le_bytes());
    b.extend_from_slice(&8u64.to_le_bytes());
    b.extend_from_slice(&size.to_le_bytes());
    b.extend_from_slice(&0u32.to_le_bytes());
    b.extend_from_slice(payload);
    b
}

#[test]
fn write_size_mismatch_is_integrity_violation() {
    let mut se = initialized_session();
    let buf = request(FUSE_WRITE, 14, 2, &write_body(5, b"abc"));
    let req = Request::new(&buf, Platform::Generic).unwrap();
    assert!(req.violates_integrity(&se));
    let fresh = Session::new(Platform::Generic, 65536, 4096);
    assert!(!req.violates_integrity(&fresh));
    let buf = request(FUSE_WRITE, 15, 2, &write_body(3, b"abc"));
    let req = Request::new(&buf, Platform::Generic).unwrap();
    assert!(!req.violates_integrity(&se));
    match call_of(req.dispatch(&mut se)).0 {
        FsCall::Write { ino, fh, offset, data, flags } => {
            assert_eq!((ino, fh, offset, flags), (2, 1, 8, 0));
            assert_eq!(req.bytes(data).unwrap(), b"abc");
        }
        other => panic!("unexpected {:?}", other),
    }
}

#[test]
fn setxattr_value_checked_and_position_by_platform() {
    let mut body = Vec::new();
    body.extend_from_slice(&2u32.to_le_bytes());
    body.extend_from_slice(&1u32.to_le_bytes());
    let mut mac_body = body.clone();
    mac_body.extend_from_slice(&9u32.to_le_bytes());
    mac_body.extend_from_slice(&0u32.to_le_bytes());
    body.extend_from_slice(b"user.x\0hi");
    mac_body.extend_from_slice(b"user.x\0hi");
    let mut se = initialized_session();
    let buf = request(FUSE_SETXATTR, 16, 2, &body);
    match call_of(dispatch_once(&mut se, &buf)).0 {
        FsCall::SetXAttr { flags, position, .. } => assert_eq!((flags, position), (1, 0)),
        other => panic!("unexpected {:?}", other),
    }
    let buf = request(FUSE_SETXATTR, 17, 2, &mac_body);
    let req = Request::new(&buf, Platform::MacOs).unwrap();
    match call_of(req.dispatch(&mut se)).0 {
        FsCall::SetXAttr { name, value, position, .. } => {
            assert_eq!(position, 9);
            assert_eq!(req.bytes(name).unwrap(), b"user.x");
            assert_eq!(req.bytes(value).unwrap(), b"hi");
        }
        other => panic!("unexpected {:?}", other),
    }
    let mut short = Vec::new();
    short.extend_from_slice(&3u32.to_le_bytes());
    short.extend_from_slice(&0u32.to_le_bytes());
    short.extend_from_slice(b"user.x\0hi");
    let buf = request(FUSE_SETXATTR, 18, 2, &short);
    let req = Request::new(&buf, Platform::Generic).unwrap();
    assert!(req.violates_integrity(&se));
}

fn fsync_body(flags: u32) -> Vec<u8> {
    let mut b = 3u64.to_le_bytes().to_vec();
    b.extend_from_slice(&flags.to_le_bytes());
    b.extend_from_slice(&0u32.to_le_bytes());
    b
}

#[test]
fn fsync_datasync_from_bit_zero() {
    let mut se = initialized_session();
    let buf = request(FUSE_FSYNC, 19, 2, &fsync_body(1));
    assert_eq!(call_of(dispatch_once(&mut se, &buf)).0, FsCall::FSync {
        ino: 2,
        fh: 3,
        datasync: true,
    });
    let buf = request(FUSE_FSYNC, 20, 2, &fsync_body(0));
    assert_eq!(call_of(dispatch_once(&mut se, &buf)).0, FsCall::FSync {
        ino: 2,
        fh: 3,
        datasync: false,
    });
    let buf = request(FUSE_FSYNCDIR, 21, 2, &fsync_body(3));
    assert_eq!(call_of(dispatch_once(&mut se, &buf)).0, FsCall::FSyncDir {
        ino: 2,
        fh: 3,
        datasync: true,
    });
}

#[test]
fn release_flush_flag() {
    let mut se = initialized_session();
    let mut body = 4u64.to_le_bytes().to_vec();
    body.extend_from_slice(&2u32.to_le_bytes());
    body.extend_from_slice(&1u32.to_le_bytes());
    body.extend_from_slice(&6u64.to_le_bytes());
    let buf = request(FUSE_RELEASE, 22, 2, &body);
    assert_eq!(call_of(dispatch_once(&mut se, &buf)).0, FsCall::Release {
        ino: 2,
        fh: 4,
        flags: 2,
        lock_owner: 6,
        flush: true,
    });
}

#[test]
fn readdir_reply_has_request_budget() {
    let mut se = initialized_session();
    let mut body = 4u64.to_le_bytes().to_vec();
    body.extend_from_slice(&0u64.to_le_bytes());
    body.extend_from_slice(&64u32.to_le_bytes());
    body.extend_from_slice(&0u32.to_le_bytes());
    let buf = request(FUSE_READDIR, 23, 2, &body);
    match dispatch_once(&mut se, &buf) {
        Dispatch::ReadDir { ino, fh, offset, mut reply } => {
            assert_eq!((ino, fh, offset), (2, 4, 0));
            assert!(!reply.add(10, 1, 4, b"a"));
            assert!(!reply.add(11, 2, 8, b"bcdefghi"));
            assert!(reply.add(12, 3, 8, b"x"));
            let bytes = reply.ok();
            assert_eq!(bytes.len(), 16 + 32 + 32);
            assert_eq!(u32_at(&bytes, 0), 80);
            assert_eq!(u64_at(&bytes, 8), 23);
            assert_eq!(u64_at(&bytes, 16), 10);
            assert_eq!(u64_at(&bytes, 24), 1);
            assert_eq!(u32_at(&bytes, 32), 1);
            assert_eq!(u32_at(&bytes, 36), 4);
            assert_eq!(&bytes[40..48], b"a\0\0\0\0\0\0\0");
            assert_eq!(&bytes[72..80], b"bcdefghi");
        }
        other => panic!("unexpected {:?}", other),
    }
}

#[test]
fn reply_encodings() {
    assert_eq!(Reply::new(5).error(2), error_reply(5, 2));
    let ok = Reply::new(6).ok(&[1, 2, 3]);
    assert_eq!(ok, vec![19, 0, 0, 0, 0, 0, 0, 0, 6, 0, 0, 0, 0, 0, 0, 0, 1, 2, 3]);
    assert_eq!(Reply::new(7).ok_empty(), vec![16, 0, 0, 0, 0, 0, 0, 0, 7, 0, 0, 0, 0, 0, 0, 0]);
    let empty = ReplyDirectory::new(8, 0).ok();
    assert_eq!(empty.len(), 16);
}

#[test]
fn error_codes_are_the_platform_errno_values() {
    let codes = ErrorCodes::platform();
    assert_eq!(codes.io(), libc::EIO);
    assert_eq!(codes.not_implemented(), libc::ENOSYS);
    assert_eq!(codes.protocol(), libc::EPROTO);
}


#[test]
fn typed_reply_payloads() {
    let w = Reply::new(1).ok_write(512);
    assert_eq!(u32_at(&w, 0), 24);
    assert_eq!(u32_at(&w, 16), 512);
    assert_eq!(u32_at(&w, 20), 0);
    let o = Reply::new(2).ok_open(0x1122_3344_5566_7788, 3);
    assert_eq!(u32_at(&o, 0), 32);
    assert_eq!(u64_at(&o, 8), 2);
    assert_eq!(u64_at(&o, 16), 0x1122_3344_5566_7788);
    assert_eq!(u32_at(&o, 24), 3);
    let x = Reply::new(3).ok_xattr_size(77);
    assert_eq!((x.len(), u32_at(&x, 16)), (24, 77));
    let b = Reply::new(4).ok_bmap(99);
    assert_eq!((b.len(), u64_at(&b, 16)), (24, 99));
}
