//! Dispatch: what the protocol layer does with a decoded request, given the
//! session state, and the arguments it hands to the filesystem.

use crate::abi::{
    InitIn, Platform, SetAttrIn, FATTR_ATIME, FATTR_BKUPTIME, FATTR_CHGTIME, FATTR_CRTIME,
    FATTR_FH, FATTR_FLAGS, FATTR_GID, FATTR_MODE, FATTR_MTIME, FATTR_SIZE, FATTR_UID,
    FUSE_RELEASE_FLUSH, MIN_MAJOR, MIN_MINOR,
};
use crate::reply::{
    reply_unique, spec_error_reply, spec_ok_reply, Reply, ReplyDirectory, MAX_DIRECTORY_BUDGET,
};
use crate::request::{Operation, Request, RequestHeader, Span};
use crate::session::{version_supported, Session, SessionState};
use vstd::prelude::*;

verus! {

/// Largest number of whole seconds after the epoch that a timestamp holds.
pub const MAX_TIME_SECS: u64 = 9223372036854775807;

/// Nanoseconds in a second.
pub const NANOS_PER_SEC: u32 = 1000000000;

/// A point in time handed to the filesystem.
#[derive(Clone, Copy, Debug, PartialEq, Eq, Structural)]
pub enum TimeSpec {
    /// `secs` seconds and `nanos` nanoseconds after the epoch, with
    /// `nanos` below one second.
    At { secs: u64, nanos: u32 },
    /// The current time: stands for a timestamp beyond the representable
    /// range.
    Now,
}

/// The time `secs` seconds and `nanos` nanoseconds after the epoch, with
/// whole seconds carried out of `nanos`; `Now` where the seconds exceed
/// `MAX_TIME_SECS`.
pub open spec fn spec_time(secs: u64, nanos: u32) -> TimeSpec {
    let total = secs + nanos / NANOS_PER_SEC;
    if total <= MAX_TIME_SECS {
        TimeSpec::At { secs: total as u64, nanos: (nanos % NANOS_PER_SEC) as u32 }
    } else {
        TimeSpec::Now
    }
}

/// The time `secs` seconds and `nanos` nanoseconds after the epoch.
pub fn time_from(secs: u64, nanos: u32) -> (r: TimeSpec)
    ensures
        r == spec_time(secs, nanos),
{
    let carry = nanos / NANOS_PER_SEC;
    if secs <= MAX_TIME_SECS - carry as u64 {
        TimeSpec::At { secs: secs + carry as u64, nanos: nanos % NANOS_PER_SEC }
    } else {
        TimeSpec::Now
    }
}

/// The attributes a set-attributes request changes; `None` for those it
/// leaves alone.
#[derive(Clone, Copy, Debug, PartialEq, Eq, Structural)]
pub struct SetAttrArgs {
    pub mode: Option<u32>,
    pub uid: Option<u32>,
    pub gid: Option<u32>,
    pub size: Option<u64>,
    pub atime: Option<TimeSpec>,
    pub mtime: Option<TimeSpec>,
    pub fh: Option<u64>,
    pub crtime: Option<TimeSpec>,
    pub chgtime: Option<TimeSpec>,
    pub bkuptime: Option<TimeSpec>,
    pub flags: Option<u32>,
}

/// Whether `bit` is set in `valid`.
pub open spec fn has_bit(valid: u32, bit: u32) -> bool {
    valid & bit != 0
}

/// The attributes that `arg` sets: each field is present exactly when its
/// bit of `arg.valid` is set; the extended timestamps and flags only on
/// [`Platform::MacOs`].
pub open spec fn spec_setattr_args(arg: SetAttrIn, p: Platform) -> SetAttrArgs {
    let mac = p == Platform::MacOs;
    SetAttrArgs {
        mode: if has_bit(arg.valid, FATTR_MODE) { Some(arg.mode) } else { None },
        uid: if has_bit(arg.valid, FATTR_UID) { Some(arg.uid) } else { None },
        gid: if has_bit(arg.valid, FATTR_GID) { Some(arg.gid) } else { None },
        size: if has_bit(arg.valid, FATTR_SIZE) { Some(arg.size) } else { None },
        atime: if has_bit(arg.valid, FATTR_ATIME) {
            Some(spec_time(arg.atime, arg.atimensec))
        } else {
            None
        },
        mtime: if has_bit(arg.valid, FATTR_MTIME) {
            Some(spec_time(arg.mtime, arg.mtimensec))
        } else {
            None
        },
        fh: if has_bit(arg.valid, FATTR_FH) { Some(arg.fh) } else { None },
        crtime: if mac && has_bit(arg.valid, FATTR_CRTIME) {
            Some(spec_time(arg.crtime, arg.crtimensec))
        } else {
            None
        },
        chgtime: if mac && has_bit(arg.valid, FATTR_CHGTIME) {
            Some(spec_time(arg.chgtime, arg.chgtimensec))
        } else {
            None
        },
        bkuptime: if mac && has_bit(arg.valid, FATTR_BKUPTIME) {
            Some(spec_time(arg.bkuptime, arg.bkuptimensec))
        } else {
            None
        },
        flags: if mac && has_bit(arg.valid, FATTR_FLAGS) { Some(arg.flags) } else { None },
    }
}

/// The attributes that `arg` sets.
pub fn setattr_args(arg: &SetAttrIn, p: Platform) -> (r: SetAttrArgs)
    ensures
        r == spec_setattr_args(*arg, p),
{
    let mac = p == Platform::MacOs;
    let v = arg.valid;
    SetAttrArgs {
        mode: if v & FATTR_MODE != 0 { Some(arg.mode) } else { None },
        uid: if v & FATTR_UID != 0 { Some(arg.uid) } else { None },
        gid: if v & FATTR_GID != 0 { Some(arg.gid) } else { None },
        size: if v & FATTR_SIZE != 0 { Some(arg.size) } else { None },
        atime: if v & FATTR_ATIME != 0 {
            Some(time_from(arg.atime, arg.atimensec))
        } else {
            None
        },
        mtime: if v & FATTR_MTIME != 0 {
            Some(time_from(arg.mtime, arg.mtimensec))
        } else {
            None
        },
        fh: if v & FATTR_FH != 0 { Some(arg.fh) } else { None },
        crtime: if mac && v & FATTR_CRTIME != 0 {
            Some(time_from(arg.crtime, arg.crtimensec))
        } else {
            None
        },
        chgtime: if mac && v & FATTR_CHGTIME != 0 {
            Some(time_from(arg.chgtime, arg.chgtimensec))
        } else {
            None
        },
        bkuptime: if mac && v & FATTR_BKUPTIME != 0 {
            Some(time_from(arg.bkuptime, arg.bkuptimensec))
        } else {
            None
        },
        flags: if mac && v & FATTR_FLAGS != 0 { Some(arg.flags) } else { None },
    }
}

/// A set-attributes request whose validity mask holds the size bit alone
/// changes the size and nothing else.
pub proof fn lemma_setattr_size_only(arg: SetAttrIn, p: Platform)
    requires
        arg.valid == FATTR_SIZE,
    ensures
        spec_setattr_args(arg, p) == (SetAttrArgs {
            mode: None,
            uid: None,
            gid: None,
            size: Some(arg.size),
            atime: None,
            mtime: None,
            fh: None,
            crtime: None,
            chgtime: None,
            bkuptime: None,
            flags: None,
        }),
{
    assert(8u32 & 1u32 == 0 && 8u32 & 2u32 == 0 && 8u32 & 4u32 == 0 && 8u32 & 8u32 != 0)
        by (bit_vector);
    assert(8u32 & 0x10u32 == 0 && 8u32 & 0x20u32 == 0 && 8u32 & 0x40u32 == 0) by (bit_vector);
    assert(8u32 & 0x1000_0000u32 == 0 && 8u32 & 0x2000_0000u32 == 0 && 8u32 & 0x4000_0000u32 == 0
        && 8u32 & 0x8000_0000u32 == 0) by (bit_vector);
}

/// A file offset as the filesystem sees it: the wire's 64 bits read as a
/// signed number.
pub open spec fn signed_offset(x: u64) -> i64 {
    #[verifier::truncate] (x as i64)
}

/// A filesystem operation with the arguments derived from its request.
#[derive(Clone, Copy, Debug, PartialEq, Eq, Structural)]
pub enum FsCall {
    Lookup { parent: u64, name: Span },
    GetAttr { ino: u64 },
    SetAttr { ino: u64, attrs: SetAttrArgs },
    ReadLink { ino: u64 },
    MkNod { parent: u64, name: Span, mode: u32, rdev: u32 },
    MkDir { parent: u64, name: Span, mode: u32 },
    Unlink { parent: u64, name: Span },
    RmDir { parent: u64, name: Span },
    SymLink { parent: u64, name: Span, link: Span },
    Rename { parent: u64, name: Span, newparent: u64, newname: Span },
    Link { ino: u64, newparent: u64, newname: Span },
    Open { ino: u64, flags: u32 },
    Read { ino: u64, fh: u64, offset: i64, size: u32 },
    Write { ino: u64, fh: u64, offset: i64, data: Span, flags: u32 },
    Flush { ino: u64, fh: u64, lock_owner: u64 },
    Release { ino: u64, fh: u64, flags: u32, lock_owner: u64, flush: bool },
    FSync { ino: u64, fh: u64, datasync: bool },
    OpenDir { ino: u64, flags: u32 },
    ReleaseDir { ino: u64, fh: u64, flags: u32 },
    FSyncDir { ino: u64, fh: u64, datasync: bool },
    StatFs { ino: u64 },
    SetXAttr { ino: u64, name: Span, value: Span, flags: u32, position: u32 },
    GetXAttr { ino: u64, name: Span, size: u32 },
    ListXAttr { ino: u64, size: u32 },
    RemoveXAttr { ino: u64, name: Span },
    Access { ino: u64, mask: u32 },
    Create { parent: u64, name: Span, mode: u32, flags: u32 },
    GetLk { ino: u64, fh: u64, owner: u64, start: u64, end: u64, typ: u32, pid: u32 },
    SetLk { ino: u64, fh: u64, owner: u64, start: u64, end: u64, typ: u32, pid: u32, sleep: bool },
    BMap { ino: u64, blocksize: u32, idx: u64 },
    SetVolName { name: Span },
    GetXTimes { ino: u64 },
    Exchange { olddir: u64, oldname: Span, newdir: u64, newname: Span, options: u64 },
}

/// The filesystem operation that serves `op`, received with header `h` from a
/// driver of flavour `p`; `None` for the operations the protocol layer
/// handles itself or that need a reply of their own kind.
pub open spec fn spec_fs_call(h: RequestHeader, op: Operation, p: Platform) -> Option<FsCall> {
    match op {
        Operation::Lookup { name } => Some(FsCall::Lookup { parent: h.nodeid, name }),
        Operation::GetAttr => Some(FsCall::GetAttr { ino: h.nodeid }),
        Operation::SetAttr { arg } => Some(FsCall::SetAttr {
            ino: h.nodeid,
            attrs: spec_setattr_args(arg, p),
        }),
        Operation::ReadLink => Some(FsCall::ReadLink { ino: h.nodeid }),
        Operation::MkNod { arg, name } => Some(FsCall::MkNod {
            parent: h.nodeid,
            name,
            mode: arg.mode,
            rdev: arg.rdev,
        }),
        Operation::MkDir { arg, name } => Some(FsCall::MkDir {
            parent: h.nodeid,
            name,
            mode: arg.mode,
        }),
        Operation::Unlink { name } => Some(FsCall::Unlink { parent: h.nodeid, name }),
        Operation::RmDir { name } => Some(FsCall::RmDir { parent: h.nodeid, name }),
        Operation::SymLink { name, link } => Some(FsCall::SymLink { parent: h.nodeid, name, link }),
        Operation::Rename { arg, name, newname } => Some(FsCall::Rename {
            parent: h.nodeid,
            name,
            newparent: arg.newdir,
            newname,
        }),
        Operation::Link { arg, name } => Some(FsCall::Link {
            ino: arg.oldnodeid,
            newparent: h.nodeid,
            newname: name,
        }),
        Operation::Open { arg } => Some(FsCall::Open { ino: h.nodeid, flags: arg.flags }),
        Operation::Read { arg } => Some(FsCall::Read {
            ino: h.nodeid,
            fh: arg.fh,
            offset: signed_offset(arg.offset),
            size: arg.size,
        }),
        Operation::Write { arg, data } => Some(FsCall::Write {
            ino: h.nodeid,
            fh: arg.fh,
            offset: signed_offset(arg.offset),
            data,
            flags: arg.write_flags,
        }),
        Operation::Flush { arg } => Some(FsCall::Flush {
            ino: h.nodeid,
            fh: arg.fh,
            lock_owner: arg.lock_owner,
        }),
        Operation::Release { arg } => Some(FsCall::Release {
            ino: h.nodeid,
            fh: arg.fh,
            flags: arg.flags,
            lock_owner: arg.lock_owner,
            flush: arg.release_flags & FUSE_RELEASE_FLUSH != 0,
        }),
        Operation::FSync { arg } => Some(FsCall::FSync {
            ino: h.nodeid,
            fh: arg.fh,
            datasync: arg.fsync_flags & 1 != 0,
        }),
        Operation::OpenDir { arg } => Some(FsCall::OpenDir { ino: h.nodeid, flags: arg.flags }),
        Operation::ReleaseDir { arg } => Some(FsCall::ReleaseDir {
            ino: h.nodeid,
            fh: arg.fh,
            flags: arg.flags,
        }),
        Operation::FSyncDir { arg } => Some(FsCall::FSyncDir {
            ino: h.nodeid,
            fh: arg.fh,
            datasync: arg.fsync_flags & 1 != 0,
        }),
        Operation::StatFs => Some(FsCall::StatFs { ino: h.nodeid }),
        Operation::SetXAttr { arg, name, value } => Some(FsCall::SetXAttr {
            ino: h.nodeid,
            name,
            value,
            flags: arg.flags,
            position: if p == Platform::MacOs { arg.position } else { 0 },
        }),
        Operation::GetXAttr { arg, name } => Some(FsCall::GetXAttr {
            ino: h.nodeid,
            name,
            size: arg.size,
        }),
        Operation::ListXAttr { arg } => Some(FsCall::ListXAttr { ino: h.nodeid, size: arg.size }),
        Operation::RemoveXAttr { name } => Some(FsCall::RemoveXAttr { ino: h.nodeid, name }),
        Operation::Access { arg } => Some(FsCall::Access { ino: h.nodeid, mask: arg.mask }),
        Operation::Create { arg, name } => Some(FsCall::Create {
            parent: h.nodeid,
            name,
            mode: arg.mode,
            flags: arg.flags,
        }),
        Operation::GetLk { arg } => Some(FsCall::GetLk {
            ino: h.nodeid,
            fh: arg.fh,
            owner: arg.owner,
            start: arg.start,
            end: arg.end,
            typ: arg.typ,
            pid: arg.pid,
        }),
        Operation::SetLk { arg } => Some(FsCall::SetLk {
            ino: h.nodeid,
            fh: arg.fh,
            owner: arg.owner,
            start: arg.start,
            end: arg.end,
            typ: arg.typ,
            pid: arg.pid,
            sleep: false,
        }),
        Operation::SetLkW { arg } => Some(FsCall::SetLk {
            ino: h.nodeid,
            fh: arg.fh,
            owner: arg.owner,
            start: arg.start,
            end: arg.end,
            typ: arg.typ,
            pid: arg.pid,
            sleep: true,
        }),
        Operation::BMap { arg } => Some(FsCall::BMap {
            ino: h.nodeid,
            blocksize: arg.blocksize,
            idx: arg.block,
        }),
        Operation::SetVolName { name } => Some(FsCall::SetVolName { name }),
        Operation::GetXTimes => Some(FsCall::GetXTimes { ino: h.nodeid }),
        Operation::Exchange { arg, oldname, newname } => Some(FsCall::Exchange {
            olddir: arg.olddir,
            oldname,
            newdir: arg.newdir,
            newname,
            options: arg.options,
        }),
        _ => None,
    }
}

/// The filesystem operation that serves `op`.
pub fn fs_call(h: RequestHeader, op: Operation, p: Platform) -> (r: Option<FsCall>)
    ensures
        r == spec_fs_call(h, op, p),
{
    match op {
        Operation::Lookup { name } => Some(FsCall::Lookup { parent: h.nodeid, name }),
        Operation::GetAttr => Some(FsCall::GetAttr { ino: h.nodeid }),
        Operation::SetAttr { arg } => Some(FsCall::SetAttr {
            ino: h.nodeid,
            attrs: setattr_args(&arg, p),
        }),
        Operation::ReadLink => Some(FsCall::ReadLink { ino: h.nodeid }),
        Operation::MkNod { arg, name } => Some(FsCall::MkNod {
            parent: h.nodeid,
            name,
            mode: arg.mode,
            rdev: arg.rdev,
        }),
        Operation::MkDir { arg, name } => Some(FsCall::MkDir {
            parent: h.nodeid,
            name,
            mode: arg.mode,
        }),
        Operation::Unlink { name } => Some(FsCall::Unlink { parent: h.nodeid, name }),
        Operation::RmDir { name } => Some(FsCall::RmDir { parent: h.nodeid, name }),
        Operation::SymLink { name, link } => Some(FsCall::SymLink { parent: h.nodeid, name, link }),
        Operation::Rename { arg, name, newname } => Some(FsCall::Rename {
            parent: h.nodeid,
            name,
            newparent: arg.newdir,
            newname,
        }),
        Operation::Link { arg, name } => Some(FsCall::Link {
            ino: arg.oldnodeid,
            newparent: h.nodeid,
            newname: name,
        }),
        Operation::Open { arg } => Some(FsCall::Open { ino: h.nodeid, flags: arg.flags }),
        Operation::Read { arg } => Some(FsCall::Read {
            ino: h.nodeid,
            fh: arg.fh,
            offset: #[verifier::truncate] (arg.offset as i64),
            size: arg.size,
        }),
        Operation::Write { arg, data } => Some(FsCall::Write {
            ino: h.nodeid,
            fh: arg.fh,
            offset: #[verifier::truncate] (arg.offset as i64),
            data,
            flags: arg.write_flags,
        }),
        Operation::Flush { arg } => Some(FsCall::Flush {
            ino: h.nodeid,
            fh: arg.fh,
            lock_owner: arg.lock_owner,
        }),
        Operation::Release { arg } => Some(FsCall::Release {
            ino: h.nodeid,
            fh: arg.fh,
            flags: arg.flags,
            lock_owner: arg.lock_owner,
            flush: arg.release_flags & FUSE_RELEASE_FLUSH != 0,
        }),
        Operation::FSync { arg } => Some(FsCall::FSync {
            ino: h.nodeid,
            fh: arg.fh,
            datasync: arg.fsync_flags & 1 != 0,
        }),
        Operation::OpenDir { arg } => Some(FsCall::OpenDir { ino: h.nodeid, flags: arg.flags }),
        Operation::ReleaseDir { arg } => Some(FsCall::ReleaseDir {
            ino: h.nodeid,
            fh: arg.fh,
            flags: arg.flags,
        }),
        Operation::FSyncDir { arg } => Some(FsCall::FSyncDir {
            ino: h.nodeid,
            fh: arg.fh,
            datasync: arg.fsync_flags & 1 != 0,
        }),
        Operation::StatFs => Some(FsCall::StatFs { ino: h.nodeid }),
        Operation::SetXAttr { arg, name, value } => Some(FsCall::SetXAttr {
            ino: h.nodeid,
            name,
            value,
            flags: arg.flags,
            position: if p == Platform::MacOs { arg.position } else { 0 },
        }),
        Operation::GetXAttr { arg, name } => Some(FsCall::GetXAttr {
            ino: h.nodeid,
            name,
            size: arg.size,
        }),
        Operation::ListXAttr { arg } => Some(FsCall::ListXAttr { ino: h.nodeid, size: arg.size }),
        Operation::RemoveXAttr { name } => Some(FsCall::RemoveXAttr { ino: h.nodeid, name }),
        Operation::Access { arg } => Some(FsCall::Access { ino: h.nodeid, mask: arg.mask }),
        Operation::Create { arg, name } => Some(FsCall::Create {
            parent: h.nodeid,
            name,
            mode: arg.mode,
            flags: arg.flags,
        }),
        Operation::GetLk { arg } => Some(FsCall::GetLk {
            ino: h.nodeid,
            fh: arg.fh,
            owner: arg.owner,
            start: arg.start,
            end: arg.end,
            typ: arg.typ,
            pid: arg.pid,
        }),
        Operation::SetLk { arg } => Some(FsCall::SetLk {
            ino: h.nodeid,
            fh: arg.fh,
            owner: arg.owner,
            start: arg.start,
            end: arg.end,
            typ: arg.typ,
            pid: arg.pid,
            sleep: false,
        }),
        Operation::SetLkW { arg } => Some(FsCall::SetLk {
            ino: h.nodeid,
            fh: arg.fh,
            owner: arg.owner,
            start: arg.start,
            end: arg.end,
            typ: arg.typ,
            pid: arg.pid,
            sleep: true,
        }),
        Operation::BMap { arg } => Some(FsCall::BMap {
            ino: h.nodeid,
            blocksize: arg.blocksize,
            idx: arg.block,
        }),
        Operation::SetVolName { name } => Some(FsCall::SetVolName { name }),
        Operation::GetXTimes => Some(FsCall::GetXTimes { ino: h.nodeid }),
        Operation::Exchange { arg, oldname, newname } => Some(FsCall::Exchange {
            olddir: arg.olddir,
            oldname,
            newdir: arg.newdir,
            newname,
            options: arg.options,
        }),
        _ => None,
    }
}

/// Whether the payload of `op` has the length its arguments declare.  Only
/// write and set-extended-attribute carry one.
pub open spec fn payload_consistent(op: Operation) -> bool {
    match op {
        Operation::Write { arg, data } => data.start <= data.end && data.end - data.start
            == arg.size,
        Operation::SetXAttr { arg, value, .. } => value.start <= value.end && value.end
            - value.start == arg.size,
        _ => true,
    }
}

fn span_has_len(s: Span, n: u32) -> (r: bool)
    ensures
        r == (s.start <= s.end && s.end - s.start == n),
{
    s.start <= s.end && s.end - s.start == n as usize
}

/// The error number the protocol layer answers `op` with itself, given the
/// session `se`; `None` when the operation goes further.  A handshake is
/// served only by an uninitialized session and with a supported version;
/// every other operation only by an initialized one; an interrupt is never
/// honoured.
pub open spec fn spec_rejection(se: Session, op: Operation) -> Option<i32> {
    match op {
        Operation::Init { arg } => if se.state != SessionState::Uninitialized {
            Some(se.errors.spec_io())
        } else if !version_supported(arg.major, arg.minor) {
            Some(se.errors.spec_protocol())
        } else {
            None
        },
        _ => if se.state != SessionState::Initialized {
            Some(se.errors.spec_io())
        } else if op is Interrupt {
            Some(se.errors.spec_not_implemented())
        } else {
            None
        },
    }
}

/// A handshake repeated after a successful one is a sequencing violation:
/// it is answered with the I/O error and, by [`Request::dispatch`], leaves
/// the negotiated state as it was.
pub proof fn lemma_repeated_handshake_rejected(se: Session, arg: InitIn)
    requires
        se.state == SessionState::Initialized,
    ensures
        spec_rejection(se, Operation::Init { arg }) == Some(se.errors.spec_io()),
{
}

/// Before the handshake, every operation but the handshake is answered with
/// the I/O error, and the session stays uninitialized.
pub proof fn lemma_uninitialized_rejects(se: Session, op: Operation)
    requires
        se.state == SessionState::Uninitialized,
        !(op is Init),
    ensures
        spec_rejection(se, op) == Some(se.errors.spec_io()),
{
}

/// After teardown, every operation is answered with the I/O error.
pub proof fn lemma_destroyed_rejects(se: Session, op: Operation)
    requires
        se.state == SessionState::Destroyed,
    ensures
        spec_rejection(se, op) == Some(se.errors.spec_io()),
{
}

/// In an initialized session the protocol layer lets a forget through, and
/// a forget is never answered.
pub proof fn lemma_forget_not_rejected(se: Session, arg: crate::abi::ForgetIn)
    requires
        se.state == SessionState::Initialized,
    ensures
        spec_rejection(se, Operation::Forget { arg }) is None,
{
}

/// fsync and fsync-directory ask for a data-only sync exactly when bit 0 of
/// their flags is set.
pub proof fn lemma_fsync_datasync(h: RequestHeader, arg: crate::abi::FsyncIn, p: Platform)
    ensures
        spec_fs_call(h, Operation::FSync { arg }, p) matches Some(FsCall::FSync { datasync, .. })
            && datasync == (arg.fsync_flags & 1 != 0),
        spec_fs_call(h, Operation::FSyncDir { arg }, p) matches Some(
            FsCall::FSyncDir { datasync, .. },
        ) && datasync == (arg.fsync_flags & 1 != 0),
{
}

/// The byte budget of the directory listing reply to a request for `size`
/// bytes.
pub open spec fn directory_budget(size: u32) -> nat {
    if size <= MAX_DIRECTORY_BUDGET {
        size as nat
    } else {
        MAX_DIRECTORY_BUDGET as nat
    }
}

/// The error number the protocol layer answers `op` with itself, given the
/// session `se`.
pub fn rejection(se: &Session, op: Operation) -> (r: Option<i32>)
    ensures
        r == spec_rejection(*se, op),
        r matches Some(e) ==> e > i32::MIN,
{
    match op {
        Operation::Init { arg } => if se.state != SessionState::Uninitialized {
            Some(se.errors.io())
        } else if !(arg.major > MIN_MAJOR || (arg.major == MIN_MAJOR && arg.minor >= MIN_MINOR)) {
            Some(se.errors.protocol())
        } else {
            None
        },
        Operation::Interrupt { .. } => if se.state != SessionState::Initialized {
            Some(se.errors.io())
        } else {
            Some(se.errors.not_implemented())
        },
        _ => if se.state != SessionState::Initialized {
            Some(se.errors.io())
        } else {
            None
        },
    }
}

/// What to do with one request.
#[allow(inconsistent_fields)]
#[derive(Debug)]
pub enum Dispatch {
    /// Send these reply bytes; the filesystem is not involved.
    Reply(Vec<u8>),
    /// A handshake to go on with: run the filesystem's initialization, then
    /// finish with [`Session::complete_init`].
    Init { arg: InitIn, reply: Reply },
    /// Teardown: run the filesystem's teardown hook, then send these bytes.
    Destroy(Vec<u8>),
    /// Hand the forget to the filesystem; nothing is sent.
    Forget { ino: u64, nlookup: u64 },
    /// Hand a directory listing to the filesystem with a size-bounded reply.
    ReadDir { ino: u64, fh: u64, offset: i64, reply: ReplyDirectory },
    /// Hand `call` to the filesystem, which answers through `reply`.
    Call { call: FsCall, reply: Reply },
}

impl<'a> Request<'a> {
    /// Whether serving this request in session `se` would reach a payload
    /// whose length disagrees with its declared size.  The framing is then
    /// corrupt: request handling must abort, and [`Request::dispatch`] is not
    /// to be called.
    pub fn violates_integrity(&self, se: &Session) -> (r: bool)
        ensures
            r == (spec_rejection(*se, self.spec_operation()) is None && !payload_consistent(
                self.spec_operation(),
            )),
    {
        let op = self.operation();
        if rejection(se, op).is_some() {
            return false;
        }
        match op {
            Operation::Write { arg, data } => !span_has_len(data, arg.size),
            Operation::SetXAttr { arg, value, .. } => !span_has_len(value, arg.size),
            _ => false,
        }
    }

    /// Decides what to do with this request in session `se`, and moves the
    /// session from initialized to destroyed on teardown.  A request whose
    /// payload disagrees with its declared size is left out (see
    /// [`Request::violates_integrity`]).
    pub fn dispatch(&self, se: &mut Session) -> (d: Dispatch)
        requires
            spec_rejection(*old(se), self.spec_operation()) is None ==> payload_consistent(
                self.spec_operation(),
            ),
        ensures
            ({
                let h = self.spec_header();
                let op = self.spec_operation();
                match spec_rejection(*old(se), op) {
                    Some(code) => {
                        &&& d matches Dispatch::Reply(b) && b@ == spec_error_reply(h.unique, code)
                        &&& *final(se) == *old(se)
                    },
                    None => match op {
                        Operation::Init { arg } => {
                            &&& d matches Dispatch::Init { arg: a, reply } && a == arg && reply.id()
                                == h.unique
                            &&& *final(se) == *old(se)
                        },
                        Operation::Destroy => {
                            &&& d matches Dispatch::Destroy(b) && b@ == spec_ok_reply(
                                h.unique,
                                Seq::empty(),
                            )
                            &&& *final(se) == Session { state: SessionState::Destroyed, ..*old(se) }
                        },
                        Operation::Forget { arg } => {
                            &&& d matches Dispatch::Forget { ino, nlookup } && ino == h.nodeid
                                && nlookup == arg.nlookup
                            &&& *final(se) == *old(se)
                        },
                        Operation::ReadDir { arg } => {
                            &&& d matches Dispatch::ReadDir { ino, fh, offset, reply }
                                && ino == h.nodeid && fh == arg.fh
                                && offset == signed_offset(arg.offset)
                                && reply.id() == h.unique
                                && reply.budget() == directory_budget(arg.size)
                                && reply.entries() == Seq::<u8>::empty()
                            &&& *final(se) == *old(se)
                        },
                        _ => {
                            &&& d matches Dispatch::Call { call, reply }
                                && spec_fs_call(h, op, self.spec_platform()) == Some(call)
                                && reply.id() == h.unique
                            &&& *final(se) == *old(se)
                        },
                    },
                }
            }),
            match d {
                Dispatch::Reply(b) => reply_unique(b@) == self.spec_header().unique,
                Dispatch::Destroy(b) => reply_unique(b@) == self.spec_header().unique,
                _ => true,
            },
    {
        let h = self.header();
        let op = self.operation();
        let unique = h.unique;
        if let Some(code) = rejection(se, op) {
            return Dispatch::Reply(self.reply().error(code));
        }
        match op {
            Operation::Init { arg } => Dispatch::Init { arg, reply: self.reply() },
            Operation::Destroy => {
                se.state = SessionState::Destroyed;
                Dispatch::Destroy(self.reply().ok_empty())
            },
            Operation::Forget { arg } => Dispatch::Forget { ino: h.nodeid, nlookup: arg.nlookup },
            Operation::ReadDir { arg } => Dispatch::ReadDir {
                ino: h.nodeid,
                fh: arg.fh,
                offset: #[verifier::truncate] (arg.offset as i64),
                reply: ReplyDirectory::new(unique, arg.size as usize),
            },
            _ => match fs_call(h, op, self.platform()) {
                Some(call) => Dispatch::Call { call, reply: self.reply() },
                None => Dispatch::Reply(self.reply().error(se.errors.not_implemented())),
            },
        }
    }
}

} // verus!
