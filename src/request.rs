//! Decoding of a request buffer into its header and a typed operation.

use crate::abi::{
    is_known_opcode, ACCESS_IN_SIZE, AccessIn, BMAP_IN_SIZE, BMapIn, CREATE_IN_SIZE, CreateIn,
    EXCHANGE_IN_SIZE, ExchangeIn, FLUSH_IN_SIZE, FORGET_IN_SIZE, FSYNC_IN_SIZE, FUSE_ACCESS,
    FUSE_BMAP, FUSE_CREATE, FUSE_DESTROY, FUSE_EXCHANGE, FUSE_FLUSH, FUSE_FORGET, FUSE_FSYNC,
    FUSE_FSYNCDIR, FUSE_GETATTR, FUSE_GETLK, FUSE_GETXATTR, FUSE_GETXTIMES, FUSE_INIT,
    FUSE_INTERRUPT, FUSE_LINK, FUSE_LISTXATTR, FUSE_LOOKUP, FUSE_MKDIR, FUSE_MKNOD, FUSE_OPEN,
    FUSE_OPENDIR, FUSE_READ, FUSE_READDIR, FUSE_READLINK, FUSE_RELEASE, FUSE_RELEASEDIR,
    FUSE_REMOVEXATTR, FUSE_RENAME, FUSE_RMDIR, FUSE_SETATTR, FUSE_SETLK, FUSE_SETLKW,
    FUSE_SETVOLNAME, FUSE_SETXATTR, FUSE_STATFS, FUSE_SYMLINK, FUSE_UNLINK, FUSE_WRITE, FlushIn,
    ForgetIn, FsyncIn, GetXAttrIn, INIT_IN_SIZE, INTERRUPT_IN_SIZE, IN_HEADER_SIZE, InitIn,
    InterruptIn, LINK_IN_SIZE, LK_IN_SIZE, LinkIn, LkIn, MKDIR_IN_SIZE, MKNOD_IN_SIZE, MkDirIn,
    MkNodIn, OPEN_IN_SIZE, OpenIn, Platform, READ_IN_SIZE, RELEASE_IN_SIZE, RENAME_IN_SIZE,
    ReadIn, ReleaseIn, RenameIn, SetAttrIn, SetXAttrIn, WRITE_IN_SIZE, WriteIn, known_opcode,
    setattr_in_size, spec_setattr_in_size, spec_xattr_in_size, xattr_in_size,
};
use crate::bytes::{le_u32, le_u64, push_u32, push_u64, read_u32, read_u64, u32_bytes, u64_bytes};
use crate::bytes::{
    lemma_u32_bytes_of_read, lemma_u32_round_trip, lemma_u64_bytes_of_read, lemma_u64_round_trip,
};
use crate::reply::Reply;
use vstd::prelude::*;

verus! {

/// The fixed header that starts every request buffer.
#[derive(Clone, Copy, Debug, PartialEq, Eq, Structural)]
pub struct RequestHeader {
    /// Total length of the buffer, header included.
    pub len: u32,
    pub opcode: u32,
    /// Correlation id, echoed in the reply.
    pub unique: u64,
    /// The node the operation applies to.
    pub nodeid: u64,
    pub uid: u32,
    pub gid: u32,
    pub pid: u32,
}

impl RequestHeader {
    /// The header stored at the start of `d`.
    pub open spec fn spec_at(d: Seq<u8>) -> Self {
        RequestHeader {
            len: le_u32(d, 0),
            opcode: le_u32(d, 4),
            unique: le_u64(d, 8),
            nodeid: le_u64(d, 16),
            uid: le_u32(d, 24),
            gid: le_u32(d, 28),
            pid: le_u32(d, 32),
        }
    }

    /// The wire form of the header, with zero padding.
    pub open spec fn spec_bytes(self) -> Seq<u8> {
        u32_bytes(self.len) + u32_bytes(self.opcode) + u64_bytes(self.unique) + u64_bytes(
            self.nodeid,
        ) + u32_bytes(self.uid) + u32_bytes(self.gid) + u32_bytes(self.pid) + u32_bytes(0)
    }

    /// Reads the header stored at the start of `d`.
    pub fn parse(d: &[u8]) -> (r: Self)
        requires
            IN_HEADER_SIZE <= d@.len(),
        ensures
            r == Self::spec_at(d@),
    {
        RequestHeader {
            len: read_u32(d, 0),
            opcode: read_u32(d, 4),
            unique: read_u64(d, 8),
            nodeid: read_u64(d, 16),
            uid: read_u32(d, 24),
            gid: read_u32(d, 28),
            pid: read_u32(d, 32),
        }
    }

    /// The wire form of the header.
    pub fn encode(&self) -> (r: Vec<u8>)
        ensures
            r@ == self.spec_bytes(),
    {
        let mut v: Vec<u8> = Vec::new();
        push_u32(&mut v, self.len);
        push_u32(&mut v, self.opcode);
        push_u64(&mut v, self.unique);
        push_u64(&mut v, self.nodeid);
        push_u32(&mut v, self.uid);
        push_u32(&mut v, self.gid);
        push_u32(&mut v, self.pid);
        push_u32(&mut v, 0);
        assert(v@ =~= self.spec_bytes());
        v
    }
}

/// Decoding the wire form of a header gives the header back.
pub proof fn lemma_header_encode_decode(h: RequestHeader)
    ensures
        h.spec_bytes().len() == IN_HEADER_SIZE,
        RequestHeader::spec_at(h.spec_bytes()) == h,
{
    let b = h.spec_bytes();
    assert(b.subrange(0, 4) =~= u32_bytes(h.len));
    assert(b.subrange(4, 8) =~= u32_bytes(h.opcode));
    assert(b.subrange(8, 16) =~= u64_bytes(h.unique));
    assert(b.subrange(16, 24) =~= u64_bytes(h.nodeid));
    assert(b.subrange(24, 28) =~= u32_bytes(h.uid));
    assert(b.subrange(28, 32) =~= u32_bytes(h.gid));
    assert(b.subrange(32, 36) =~= u32_bytes(h.pid));
    lemma_u32_round_trip(h.len, b, 0);
    lemma_u32_round_trip(h.opcode, b, 4);
    lemma_u64_round_trip(h.unique, b, 8);
    lemma_u64_round_trip(h.nodeid, b, 16);
    lemma_u32_round_trip(h.uid, b, 24);
    lemma_u32_round_trip(h.gid, b, 28);
    lemma_u32_round_trip(h.pid, b, 32);
}

/// Decoding the header of a buffer and encoding it again gives back the
/// buffer's header fields byte for byte; only the padding becomes zero.
pub proof fn lemma_header_decode_encode(d: Seq<u8>)
    requires
        IN_HEADER_SIZE <= d.len(),
    ensures
        RequestHeader::spec_at(d).spec_bytes().subrange(0, 36) == d.subrange(0, 36),
{
    lemma_u32_bytes_of_read(d, 0);
    lemma_u32_bytes_of_read(d, 4);
    lemma_u64_bytes_of_read(d, 8);
    lemma_u64_bytes_of_read(d, 16);
    lemma_u32_bytes_of_read(d, 24);
    lemma_u32_bytes_of_read(d, 28);
    lemma_u32_bytes_of_read(d, 32);
    assert(RequestHeader::spec_at(d).spec_bytes().subrange(0, 36) =~= d.subrange(0, 36));
}

/// A range `start..end` of the request buffer.
#[derive(Clone, Copy, Debug, PartialEq, Eq, Structural)]
pub struct Span {
    pub start: usize,
    pub end: usize,
}

/// The index of the first zero byte of `d` at or after `i`.
pub open spec fn find_nul(d: Seq<u8>, i: int) -> Option<int>
    decreases d.len() - i,
{
    if i < 0 || i >= d.len() {
        None
    } else if d[i] == 0 {
        Some(i)
    } else {
        find_nul(d, i + 1)
    }
}

/// The zero-terminated string that starts at `i`, without its terminator.
pub open spec fn spec_cstr(d: Seq<u8>, i: int) -> Option<Span> {
    match find_nul(d, i) {
        Some(e) => Some(Span { start: i as usize, end: e as usize }),
        None => None,
    }
}

proof fn lemma_find_nul_bounds(d: Seq<u8>, i: int)
    ensures
        find_nul(d, i) matches Some(e) ==> 0 <= i <= e < d.len() && d[e] == 0,
    decreases d.len() - i,
{
    if 0 <= i < d.len() && d[i] != 0 {
        lemma_find_nul_bounds(d, i + 1);
    }
}

/// Finds the zero-terminated string that starts at `i`.
pub fn cstr(d: &[u8], i: usize) -> (r: Option<Span>)
    ensures
        r == spec_cstr(d@, i as int),
        r matches Some(s) ==> i == s.start <= s.end < d@.len(),
{
    let len = d.len();
    let mut k: usize = i;
    proof {
        lemma_find_nul_bounds(d@, i as int);
    }
    while k < len
        invariant
            i <= k,
            len == d@.len(),
            find_nul(d@, i as int) == find_nul(d@, k as int),
        decreases len - k,
    {
        if d[k] == 0 {
            return Some(Span { start: i, end: k });
        }
        k = k + 1;
    }
    None
}

/// A decoded request: one variant per opcode, with its fixed arguments and
/// the spans of its names and payloads in the request buffer.
#[allow(inconsistent_fields)]
#[derive(Clone, Copy, Debug, PartialEq, Eq, Structural)]
pub enum Operation {
    Init { arg: InitIn },
    Destroy,
    Interrupt { arg: InterruptIn },
    Lookup { name: Span },
    Forget { arg: ForgetIn },
    GetAttr,
    SetAttr { arg: SetAttrIn },
    ReadLink,
    SymLink { name: Span, link: Span },
    MkNod { arg: MkNodIn, name: Span },
    MkDir { arg: MkDirIn, name: Span },
    Unlink { name: Span },
    RmDir { name: Span },
    Rename { arg: RenameIn, name: Span, newname: Span },
    Link { arg: LinkIn, name: Span },
    Open { arg: OpenIn },
    Read { arg: ReadIn },
    Write { arg: WriteIn, data: Span },
    StatFs,
    Release { arg: ReleaseIn },
    FSync { arg: FsyncIn },
    SetXAttr { arg: SetXAttrIn, name: Span, value: Span },
    GetXAttr { arg: GetXAttrIn, name: Span },
    ListXAttr { arg: GetXAttrIn },
    RemoveXAttr { name: Span },
    Flush { arg: FlushIn },
    OpenDir { arg: OpenIn },
    ReadDir { arg: ReadIn },
    ReleaseDir { arg: ReleaseIn },
    FSyncDir { arg: FsyncIn },
    GetLk { arg: LkIn },
    SetLk { arg: LkIn },
    SetLkW { arg: LkIn },
    Access { arg: AccessIn },
    Create { arg: CreateIn, name: Span },
    BMap { arg: BMapIn },
    SetVolName { name: Span },
    GetXTimes,
    Exchange { arg: ExchangeIn, oldname: Span, newname: Span },
}

/// The operation with `opcode` whose arguments follow the header of `d`.
pub open spec fn spec_operation(d: Seq<u8>, opcode: u32, p: Platform) -> Option<Operation> {
    let o = IN_HEADER_SIZE as int;
    if opcode == FUSE_INIT {
        if o + INIT_IN_SIZE as int <= d.len() {
            Some(Operation::Init { arg: InitIn::spec_at(d, o) })
        } else {
            None
        }
    } else if opcode == FUSE_DESTROY {
        Some(Operation::Destroy)
    } else if opcode == FUSE_INTERRUPT {
        if o + INTERRUPT_IN_SIZE as int <= d.len() {
            Some(Operation::Interrupt { arg: InterruptIn::spec_at(d, o) })
        } else {
            None
        }
    } else if opcode == FUSE_LOOKUP {
        match spec_cstr(d, o) {
            Some(name) => Some(Operation::Lookup { name }),
            None => None,
        }
    } else if opcode == FUSE_FORGET {
        if o + FORGET_IN_SIZE as int <= d.len() {
            Some(Operation::Forget { arg: ForgetIn::spec_at(d, o) })
        } else {
            None
        }
    } else if opcode == FUSE_GETATTR {
        Some(Operation::GetAttr)
    } else if opcode == FUSE_SETATTR {
        if o + spec_setattr_in_size(p) <= d.len() {
            Some(Operation::SetAttr { arg: SetAttrIn::spec_at(d, o, p) })
        } else {
            None
        }
    } else if opcode == FUSE_READLINK {
        Some(Operation::ReadLink)
    } else if opcode == FUSE_SYMLINK {
        match spec_cstr(d, o) {
            Some(name) => match spec_cstr(d, name.end + 1) {
                Some(link) => Some(Operation::SymLink { name, link }),
                None => None,
            },
            None => None,
        }
    } else if opcode == FUSE_MKNOD {
        if o + MKNOD_IN_SIZE as int <= d.len() {
            match spec_cstr(d, o + MKNOD_IN_SIZE as int) {
                Some(name) => Some(Operation::MkNod { arg: MkNodIn::spec_at(d, o), name }),
                None => None,
            }
        } else {
            None
        }
    } else if opcode == FUSE_MKDIR {
        if o + MKDIR_IN_SIZE as int <= d.len() {
            match spec_cstr(d, o + MKDIR_IN_SIZE as int) {
                Some(name) => Some(Operation::MkDir { arg: MkDirIn::spec_at(d, o), name }),
                None => None,
            }
        } else {
            None
        }
    } else if opcode == FUSE_UNLINK {
        match spec_cstr(d, o) {
            Some(name) => Some(Operation::Unlink { name }),
            None => None,
        }
    } else if opcode == FUSE_RMDIR {
        match spec_cstr(d, o) {
            Some(name) => Some(Operation::RmDir { name }),
            None => None,
        }
    } else if opcode == FUSE_RENAME {
        if o + RENAME_IN_SIZE as int <= d.len() {
            match spec_cstr(d, o + RENAME_IN_SIZE as int) {
                Some(name) => match spec_cstr(d, name.end + 1) {
                    Some(newname) => Some(Operation::Rename {
                        arg: RenameIn::spec_at(d, o),
                        name,
                        newname,
                    }),
                    None => None,
                },
                None => None,
            }
        } else {
            None
        }
    } else if opcode == FUSE_LINK {
        if o + LINK_IN_SIZE as int <= d.len() {
            match spec_cstr(d, o + LINK_IN_SIZE as int) {
                Some(name) => Some(Operation::Link { arg: LinkIn::spec_at(d, o), name }),
                None => None,
            }
        } else {
            None
        }
    } else if opcode == FUSE_OPEN {
        if o + OPEN_IN_SIZE as int <= d.len() {
            Some(Operation::Open { arg: OpenIn::spec_at(d, o) })
        } else {
            None
        }
    } else if opcode == FUSE_READ {
        if o + READ_IN_SIZE as int <= d.len() {
            Some(Operation::Read { arg: ReadIn::spec_at(d, o) })
        } else {
            None
        }
    } else if opcode == FUSE_WRITE {
        if o + WRITE_IN_SIZE as int <= d.len() {
            Some(Operation::Write {
                arg: WriteIn::spec_at(d, o),
                data: Span { start: (o + WRITE_IN_SIZE as int) as usize, end: d.len() as usize },
            })
        } else {
            None
        }
    } else if opcode == FUSE_STATFS {
        Some(Operation::StatFs)
    } else if opcode == FUSE_RELEASE {
        if o + RELEASE_IN_SIZE as int <= d.len() {
            Some(Operation::Release { arg: ReleaseIn::spec_at(d, o) })
        } else {
            None
        }
    } else if opcode == FUSE_FSYNC {
        if o + FSYNC_IN_SIZE as int <= d.len() {
            Some(Operation::FSync { arg: FsyncIn::spec_at(d, o) })
        } else {
            None
        }
    } else if opcode == FUSE_SETXATTR {
        if o + spec_xattr_in_size(p) <= d.len() {
            match spec_cstr(d, o + spec_xattr_in_size(p)) {
                Some(name) => Some(Operation::SetXAttr {
                    arg: SetXAttrIn::spec_at(d, o, p),
                    name,
                    value: Span { start: (name.end + 1) as usize, end: d.len() as usize },
                }),
                None => None,
            }
        } else {
            None
        }
    } else if opcode == FUSE_GETXATTR {
        if o + spec_xattr_in_size(p) <= d.len() {
            match spec_cstr(d, o + spec_xattr_in_size(p)) {
                Some(name) => Some(Operation::GetXAttr { arg: GetXAttrIn::spec_at(d, o), name }),
                None => None,
            }
        } else {
            None
        }
    } else if opcode == FUSE_LISTXATTR {
        if o + spec_xattr_in_size(p) <= d.len() {
            Some(Operation::ListXAttr { arg: GetXAttrIn::spec_at(d, o) })
        } else {
            None
        }
    } else if opcode == FUSE_REMOVEXATTR {
        match spec_cstr(d, o) {
            Some(name) => Some(Operation::RemoveXAttr { name }),
            None => None,
        }
    } else if opcode == FUSE_FLUSH {
        if o + FLUSH_IN_SIZE as int <= d.len() {
            Some(Operation::Flush { arg: FlushIn::spec_at(d, o) })
        } else {
            None
        }
    } else if opcode == FUSE_OPENDIR {
        if o + OPEN_IN_SIZE as int <= d.len() {
            Some(Operation::OpenDir { arg: OpenIn::spec_at(d, o) })
        } else {
            None
        }
    } else if opcode == FUSE_READDIR {
        if o + READ_IN_SIZE as int <= d.len() {
            Some(Operation::ReadDir { arg: ReadIn::spec_at(d, o) })
        } else {
            None
        }
    } else if opcode == FUSE_RELEASEDIR {
        if o + RELEASE_IN_SIZE as int <= d.len() {
            Some(Operation::ReleaseDir { arg: ReleaseIn::spec_at(d, o) })
        } else {
            None
        }
    } else if opcode == FUSE_FSYNCDIR {
        if o + FSYNC_IN_SIZE as int <= d.len() {
            Some(Operation::FSyncDir { arg: FsyncIn::spec_at(d, o) })
        } else {
            None
        }
    } else if opcode == FUSE_GETLK {
        if o + LK_IN_SIZE as int <= d.len() {
            Some(Operation::GetLk { arg: LkIn::spec_at(d, o) })
        } else {
            None
        }
    } else if opcode == FUSE_SETLK {
        if o + LK_IN_SIZE as int <= d.len() {
            Some(Operation::SetLk { arg: LkIn::spec_at(d, o) })
        } else {
            None
        }
    } else if opcode == FUSE_SETLKW {
        if o + LK_IN_SIZE as int <= d.len() {
            Some(Operation::SetLkW { arg: LkIn::spec_at(d, o) })
        } else {
            None
        }
    } else if opcode == FUSE_ACCESS {
        if o + ACCESS_IN_SIZE as int <= d.len() {
            Some(Operation::Access { arg: AccessIn::spec_at(d, o) })
        } else {
            None
        }
    } else if opcode == FUSE_CREATE {
        if o + CREATE_IN_SIZE as int <= d.len() {
            match spec_cstr(d, o + CREATE_IN_SIZE as int) {
                Some(name) => Some(Operation::Create { arg: CreateIn::spec_at(d, o), name }),
                None => None,
            }
        } else {
            None
        }
    } else if opcode == FUSE_BMAP {
        if o + BMAP_IN_SIZE as int <= d.len() {
            Some(Operation::BMap { arg: BMapIn::spec_at(d, o) })
        } else {
            None
        }
    } else if opcode == FUSE_SETVOLNAME {
        if p == Platform::MacOs { match spec_cstr(d, o) {
            Some(name) => Some(Operation::SetVolName { name }),
            None => None,
        } } else {
            None
        }
    } else if opcode == FUSE_GETXTIMES {
        if p == Platform::MacOs {
            Some(Operation::GetXTimes)
        } else {
            None
        }
    } else if opcode == FUSE_EXCHANGE {
        if p == Platform::MacOs { if o + EXCHANGE_IN_SIZE as int <= d.len() {
            match spec_cstr(d, o + EXCHANGE_IN_SIZE as int) {
                Some(oldname) => match spec_cstr(d, oldname.end + 1) {
                    Some(newname) => Some(Operation::Exchange {
                        arg: ExchangeIn::spec_at(d, o),
                        oldname,
                        newname,
                    }),
                    None => None,
                },
                None => None,
            }
        } else {
            None
        } } else {
            None
        }
    } else {
        None
    }
}

/// Decodes the operation with `opcode` whose arguments follow the header of
/// `d`.
pub fn decode_operation(d: &[u8], opcode: u32, p: Platform) -> (r: Option<Operation>)
    requires
        IN_HEADER_SIZE <= d@.len(),
    ensures
        r == spec_operation(d@, opcode, p),
{
    let len = d.len();
    let o = IN_HEADER_SIZE;
    if opcode == FUSE_INIT {
        if len >= o + INIT_IN_SIZE {
            Some(Operation::Init { arg: InitIn::parse(d, o) })
        } else {
            None
        }
    } else if opcode == FUSE_DESTROY {
        Some(Operation::Destroy)
    } else if opcode == FUSE_INTERRUPT {
        if len >= o + INTERRUPT_IN_SIZE {
            Some(Operation::Interrupt { arg: InterruptIn::parse(d, o) })
        } else {
            None
        }
    } else if opcode == FUSE_LOOKUP {
        match cstr(d, o) {
            Some(name) => Some(Operation::Lookup { name }),
            None => None,
        }
    } else if opcode == FUSE_FORGET {
        if len >= o + FORGET_IN_SIZE {
            Some(Operation::Forget { arg: ForgetIn::parse(d, o) })
        } else {
            None
        }
    } else if opcode == FUSE_GETATTR {
        Some(Operation::GetAttr)
    } else if opcode == FUSE_SETATTR {
        if len >= o + setattr_in_size(p) {
            Some(Operation::SetAttr { arg: SetAttrIn::parse(d, o, p) })
        } else {
            None
        }
    } else if opcode == FUSE_READLINK {
        Some(Operation::ReadLink)
    } else if opcode == FUSE_SYMLINK {
        match cstr(d, o) {
            Some(name) => match cstr(d, name.end + 1) {
                Some(link) => Some(Operation::SymLink { name, link }),
                None => None,
            },
            None => None,
        }
    } else if opcode == FUSE_MKNOD {
        if len >= o + MKNOD_IN_SIZE { match cstr(d, o + MKNOD_IN_SIZE) {
            Some(name) => Some(Operation::MkNod { arg: MkNodIn::parse(d, o), name }),
            None => None,
        } } else {
            None
        }
    } else if opcode == FUSE_MKDIR {
        if len >= o + MKDIR_IN_SIZE { match cstr(d, o + MKDIR_IN_SIZE) {
            Some(name) => Some(Operation::MkDir { arg: MkDirIn::parse(d, o), name }),
            None => None,
        } } else {
            None
        }
    } else if opcode == FUSE_UNLINK {
        match cstr(d, o) {
            Some(name) => Some(Operation::Unlink { name }),
            None => None,
        }
    } else if opcode == FUSE_RMDIR {
        match cstr(d, o) {
            Some(name) => Some(Operation::RmDir { name }),
            None => None,
        }
    } else if opcode == FUSE_RENAME {
        if len >= o + RENAME_IN_SIZE { match cstr(d, o + RENAME_IN_SIZE) {
            Some(name) => match cstr(d, name.end + 1) {
                Some(newname) => Some(Operation::Rename {
                    arg: RenameIn::parse(d, o),
                    name,
                    newname,
                }),
                None => None,
            },
            None => None,
        } } else {
            None
        }
    } else if opcode == FUSE_LINK {
        if len >= o + LINK_IN_SIZE { match cstr(d, o + LINK_IN_SIZE) {
            Some(name) => Some(Operation::Link { arg: LinkIn::parse(d, o), name }),
            None => None,
        } } else {
            None
        }
    } else if opcode == FUSE_OPEN {
        if len >= o + OPEN_IN_SIZE {
            Some(Operation::Open { arg: OpenIn::parse(d, o) })
        } else {
            None
        }
    } else if opcode == FUSE_READ {
        if len >= o + READ_IN_SIZE {
            Some(Operation::Read { arg: ReadIn::parse(d, o) })
        } else {
            None
        }
    } else if opcode == FUSE_WRITE {
        if len >= o + WRITE_IN_SIZE {
            Some(Operation::Write {
                arg: WriteIn::parse(d, o),
                data: Span { start: o + WRITE_IN_SIZE, end: len },
            })
        } else {
            None
        }
    } else if opcode == FUSE_STATFS {
        Some(Operation::StatFs)
    } else if opcode == FUSE_RELEASE {
        if len >= o + RELEASE_IN_SIZE {
            Some(Operation::Release { arg: ReleaseIn::parse(d, o) })
        } else {
            None
        }
    } else if opcode == FUSE_FSYNC {
        if len >= o + FSYNC_IN_SIZE {
            Some(Operation::FSync { arg: FsyncIn::parse(d, o) })
        } else {
            None
        }
    } else if opcode == FUSE_SETXATTR {
        if len >= o + xattr_in_size(p) {
            match cstr(d, o + xattr_in_size(p)) {
                Some(name) => Some(Operation::SetXAttr {
                    arg: SetXAttrIn::parse(d, o, p),
                    name,
                    value: Span { start: name.end + 1, end: len },
                }),
                None => None,
            }
        } else {
            None
        }
    } else if opcode == FUSE_GETXATTR {
        if len >= o + xattr_in_size(p) {
            match cstr(d, o + xattr_in_size(p)) {
                Some(name) => Some(Operation::GetXAttr { arg: GetXAttrIn::parse(d, o), name }),
                None => None,
            }
        } else {
            None
        }
    } else if opcode == FUSE_LISTXATTR {
        if len >= o + xattr_in_size(p) {
            Some(Operation::ListXAttr { arg: GetXAttrIn::parse(d, o) })
        } else {
            None
        }
    } else if opcode == FUSE_REMOVEXATTR {
        match cstr(d, o) {
            Some(name) => Some(Operation::RemoveXAttr { name }),
            None => None,
        }
    } else if opcode == FUSE_FLUSH {
        if len >= o + FLUSH_IN_SIZE {
            Some(Operation::Flush { arg: FlushIn::parse(d, o) })
        } else {
            None
        }
    } else if opcode == FUSE_OPENDIR {
        if len >= o + OPEN_IN_SIZE {
            Some(Operation::OpenDir { arg: OpenIn::parse(d, o) })
        } else {
            None
        }
    } else if opcode == FUSE_READDIR {
        if len >= o + READ_IN_SIZE {
            Some(Operation::ReadDir { arg: ReadIn::parse(d, o) })
        } else {
            None
        }
    } else if opcode == FUSE_RELEASEDIR {
        if len >= o + RELEASE_IN_SIZE {
            Some(Operation::ReleaseDir { arg: ReleaseIn::parse(d, o) })
        } else {
            None
        }
    } else if opcode == FUSE_FSYNCDIR {
        if len >= o + FSYNC_IN_SIZE {
            Some(Operation::FSyncDir { arg: FsyncIn::parse(d, o) })
        } else {
            None
        }
    } else if opcode == FUSE_GETLK {
        if len >= o + LK_IN_SIZE {
            Some(Operation::GetLk { arg: LkIn::parse(d, o) })
        } else {
            None
        }
    } else if opcode == FUSE_SETLK {
        if len >= o + LK_IN_SIZE {
            Some(Operation::SetLk { arg: LkIn::parse(d, o) })
        } else {
            None
        }
    } else if opcode == FUSE_SETLKW {
        if len >= o + LK_IN_SIZE {
            Some(Operation::SetLkW { arg: LkIn::parse(d, o) })
        } else {
            None
        }
    } else if opcode == FUSE_ACCESS {
        if len >= o + ACCESS_IN_SIZE {
            Some(Operation::Access { arg: AccessIn::parse(d, o) })
        } else {
            None
        }
    } else if opcode == FUSE_CREATE {
        if len >= o + CREATE_IN_SIZE { match cstr(d, o + CREATE_IN_SIZE) {
            Some(name) => Some(Operation::Create { arg: CreateIn::parse(d, o), name }),
            None => None,
        } } else {
            None
        }
    } else if opcode == FUSE_BMAP {
        if len >= o + BMAP_IN_SIZE {
            Some(Operation::BMap { arg: BMapIn::parse(d, o) })
        } else {
            None
        }
    } else if opcode == FUSE_SETVOLNAME {
        if p == Platform::MacOs { match cstr(d, o) {
            Some(name) => Some(Operation::SetVolName { name }),
            None => None,
        } } else {
            None
        }
    } else if opcode == FUSE_GETXTIMES {
        if p == Platform::MacOs {
            Some(Operation::GetXTimes)
        } else {
            None
        }
    } else if opcode == FUSE_EXCHANGE {
        if p == Platform::MacOs {
            if len >= o + EXCHANGE_IN_SIZE {
                match cstr(d, o + EXCHANGE_IN_SIZE) {
                    Some(oldname) => match cstr(d, oldname.end + 1) {
                        Some(newname) => Some(Operation::Exchange {
                            arg: ExchangeIn::parse(d, o),
                            oldname,
                            newname,
                        }),
                        None => None,
                    },
                    None => None,
                }
            } else {
                None
            }
        } else {
            None
        }
    } else {
        None
    }
}

/// The header and operation of the buffer `d`, if it is a well-formed request.
pub open spec fn spec_decode(d: Seq<u8>, p: Platform) -> Option<(RequestHeader, Operation)> {
    if d.len() < IN_HEADER_SIZE {
        None
    } else {
        let h = RequestHeader::spec_at(d);
        if h.len != d.len() || !known_opcode(h.opcode, p) {
            None
        } else {
            match spec_operation(d, h.opcode, p) {
                Some(op) => Some((h, op)),
                None => None,
            }
        }
    }
}

/// A request received from the kernel driver: the buffer it came in, and
/// its decoded header and operation.
#[derive(Debug)]
pub struct Request<'a> {
    data: &'a [u8],
    header: RequestHeader,
    operation: Operation,
    platform: Platform,
}

impl<'a> Request<'a> {
    /// The buffer the request was decoded from.
    pub closed spec fn spec_data(&self) -> Seq<u8> {
        self.data@
    }

    /// The decoded header.
    pub closed spec fn spec_header(&self) -> RequestHeader {
        self.header
    }

    /// The decoded operation.
    pub closed spec fn spec_operation(&self) -> Operation {
        self.operation
    }

    /// The driver flavour the request was decoded for.
    pub closed spec fn spec_platform(&self) -> Platform {
        self.platform
    }

    #[verifier::type_invariant]
    spec fn decoded(&self) -> bool {
        spec_decode(self.data@, self.platform) == Some((self.header, self.operation))
    }

    /// Decodes `data`, a buffer from a driver of flavour `platform`.  Gives
    /// `None` when the buffer is shorter than a header, its length field
    /// differs from its length, its opcode is unknown, or its arguments are
    /// cut short.
    pub fn new(data: &'a [u8], platform: Platform) -> (r: Option<Request<'a>>)
        ensures
            match r {
                Some(req) => {
                    &&& spec_decode(data@, platform) == Some(
                        (req.spec_header(), req.spec_operation()),
                    )
                    &&& req.spec_data() == data@
                    &&& req.spec_platform() == platform
                },
                None => spec_decode(data@, platform) is None,
            },
    {
        let len = data.len();
        if len < IN_HEADER_SIZE {
            return None;
        }
        let header = RequestHeader::parse(data);
        if header.len as usize != len || !is_known_opcode(header.opcode, platform) {
            return None;
        }
        match decode_operation(data, header.opcode, platform) {
            Some(operation) => Some(Request { data, header, operation, platform }),
            None => None,
        }
    }

    /// The correlation id of this request.
    pub fn unique(&self) -> (r: u64)
        ensures
            r == self.spec_header().unique,
    {
        self.header.unique
    }

    /// A reply object bound to this request's correlation id.
    pub fn reply(&self) -> (r: Reply)
        ensures
            r.id() == self.spec_header().unique,
    {
        Reply::new(self.header.unique)
    }

    /// The uid of the process that caused this request.
    pub fn uid(&self) -> (r: u32)
        ensures
            r == self.spec_header().uid,
    {
        self.header.uid
    }

    /// The gid of the process that caused this request.
    pub fn gid(&self) -> (r: u32)
        ensures
            r == self.spec_header().gid,
    {
        self.header.gid
    }

    /// The pid of the process that caused this request.
    pub fn pid(&self) -> (r: u32)
        ensures
            r == self.spec_header().pid,
    {
        self.header.pid
    }

    /// The node this request applies to.
    pub fn nodeid(&self) -> (r: u64)
        ensures
            r == self.spec_header().nodeid,
    {
        self.header.nodeid
    }

    /// The decoded header.
    pub fn header(&self) -> (r: RequestHeader)
        ensures
            r == self.spec_header(),
    {
        self.header
    }

    /// The decoded operation.
    pub fn operation(&self) -> (r: Operation)
        ensures
            r == self.spec_operation(),
            spec_decode(self.spec_data(), self.spec_platform()) == Some((self.spec_header(), r)),
    {
        proof {
            use_type_invariant(self);
        }
        self.operation
    }

    /// The driver flavour this request was decoded for.
    pub fn platform(&self) -> (r: Platform)
        ensures
            r == self.spec_platform(),
    {
        self.platform
    }

    /// The bytes of the buffer in `s`, or `None` when `s` is not a range of
    /// it.
    pub fn bytes(&self, s: Span) -> (r: Option<&'a [u8]>)
        ensures
            match r {
                Some(b) => {
                    &&& s.start <= s.end <= self.spec_data().len()
                    &&& b@ == self.spec_data().subrange(s.start as int, s.end as int)
                },
                None => !(s.start <= s.end <= self.spec_data().len()),
            },
    {
        if s.start <= s.end && s.end <= self.data.len() {
            Some(vstd::slice::slice_subrange(self.data, s.start, s.end))
        } else {
            None
        }
    }
}

} // verus!
