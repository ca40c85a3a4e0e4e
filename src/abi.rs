//! Wire layout of the kernel protocol: opcodes, flag bits, and the fixed
//! argument structures that follow the request header.  All integers are
//! stored in host order, which this library takes to be little-endian.

use crate::bytes::{le_u32, le_u64, read_u32, read_u64};
use vstd::prelude::*;

verus! {

/// Protocol major version this library speaks.
pub const KERNEL_VERSION: u32 = 7;

/// Protocol minor version this library speaks.
pub const KERNEL_MINOR_VERSION: u32 = 8;

/// Oldest major version accepted in a handshake.
pub const MIN_MAJOR: u32 = 7;

/// Oldest minor version accepted in a handshake whose major is `MIN_MAJOR`.
pub const MIN_MINOR: u32 = 6;

// Opcodes of the requests.
pub const FUSE_LOOKUP: u32 = 1;
pub const FUSE_FORGET: u32 = 2;
pub const FUSE_GETATTR: u32 = 3;
pub const FUSE_SETATTR: u32 = 4;
pub const FUSE_READLINK: u32 = 5;
pub const FUSE_SYMLINK: u32 = 6;
pub const FUSE_MKNOD: u32 = 8;
pub const FUSE_MKDIR: u32 = 9;
pub const FUSE_UNLINK: u32 = 10;
pub const FUSE_RMDIR: u32 = 11;
pub const FUSE_RENAME: u32 = 12;
pub const FUSE_LINK: u32 = 13;
pub const FUSE_OPEN: u32 = 14;
pub const FUSE_READ: u32 = 15;
pub const FUSE_WRITE: u32 = 16;
pub const FUSE_STATFS: u32 = 17;
pub const FUSE_RELEASE: u32 = 18;
pub const FUSE_FSYNC: u32 = 20;
pub const FUSE_SETXATTR: u32 = 21;
pub const FUSE_GETXATTR: u32 = 22;
pub const FUSE_LISTXATTR: u32 = 23;
pub const FUSE_REMOVEXATTR: u32 = 24;
pub const FUSE_FLUSH: u32 = 25;
pub const FUSE_INIT: u32 = 26;
pub const FUSE_OPENDIR: u32 = 27;
pub const FUSE_READDIR: u32 = 28;
pub const FUSE_RELEASEDIR: u32 = 29;
pub const FUSE_FSYNCDIR: u32 = 30;
pub const FUSE_GETLK: u32 = 31;
pub const FUSE_SETLK: u32 = 32;
pub const FUSE_SETLKW: u32 = 33;
pub const FUSE_ACCESS: u32 = 34;
pub const FUSE_CREATE: u32 = 35;
pub const FUSE_INTERRUPT: u32 = 36;
pub const FUSE_BMAP: u32 = 37;
pub const FUSE_DESTROY: u32 = 38;
pub const FUSE_SETVOLNAME: u32 = 61;
pub const FUSE_GETXTIMES: u32 = 62;
pub const FUSE_EXCHANGE: u32 = 63;

/// Capability flag: the filesystem handles asynchronous reads.
pub const FUSE_ASYNC_READ: u32 = 1;
/// Capability flag: names are compared case-insensitively.
pub const FUSE_CASE_INSENSITIVE: u32 = 0x2000_0000;
/// Capability flag: the volume can be renamed.
pub const FUSE_VOL_RENAME: u32 = 0x4000_0000;
/// Capability flag: extended timestamps are supported.
pub const FUSE_XTIMES: u32 = 0x8000_0000;

/// Release flag: flush before releasing.
pub const FUSE_RELEASE_FLUSH: u32 = 1;

// Bits of the validity mask of a set-attributes request.
pub const FATTR_MODE: u32 = 0x1;
pub const FATTR_UID: u32 = 0x2;
pub const FATTR_GID: u32 = 0x4;
pub const FATTR_SIZE: u32 = 0x8;
pub const FATTR_ATIME: u32 = 0x10;
pub const FATTR_MTIME: u32 = 0x20;
pub const FATTR_FH: u32 = 0x40;
pub const FATTR_CRTIME: u32 = 0x1000_0000;
pub const FATTR_CHGTIME: u32 = 0x2000_0000;
pub const FATTR_BKUPTIME: u32 = 0x4000_0000;
pub const FATTR_FLAGS: u32 = 0x8000_0000;

/// Size of the request header that starts every buffer.
pub const IN_HEADER_SIZE: usize = 40;

/// Size of the header that starts every reply.
pub const OUT_HEADER_SIZE: usize = 16;

/// Size of the handshake reply payload.
pub const INIT_OUT_SIZE: usize = 24;

/// The kernel driver's flavour: it decides which opcodes exist, the layout
/// of a few argument structures and the capability flags offered.
#[derive(Clone, Copy, Debug, PartialEq, Eq, Structural)]
pub enum Platform {
    /// The common protocol.
    Generic,
    /// The variant with case-insensitivity, volume rename, extended
    /// timestamps and atomic exchange.
    MacOs,
}

/// Capability flags this library supports on `p`.
pub open spec fn spec_init_flags(p: Platform) -> u32 {
    match p {
        Platform::Generic => FUSE_ASYNC_READ,
        Platform::MacOs => FUSE_ASYNC_READ | FUSE_CASE_INSENSITIVE | FUSE_VOL_RENAME | FUSE_XTIMES,
    }
}

/// Capability flags this library supports on `p`.
pub fn init_flags(p: Platform) -> (r: u32)
    ensures
        r == spec_init_flags(p),
{
    match p {
        Platform::Generic => FUSE_ASYNC_READ,
        Platform::MacOs => FUSE_ASYNC_READ | FUSE_CASE_INSENSITIVE | FUSE_VOL_RENAME | FUSE_XTIMES,
    }
}

/// Whether `opcode` names an operation that the driver of `p` sends.
pub open spec fn known_opcode(opcode: u32, p: Platform) -> bool {
    ||| (1 <= opcode <= 6)
    ||| (8 <= opcode <= 18)
    ||| (20 <= opcode <= 38)
    ||| (p == Platform::MacOs && 61 <= opcode <= 63)
}

/// Whether `opcode` names an operation that the driver of `p` sends.
pub fn is_known_opcode(opcode: u32, p: Platform) -> (r: bool)
    ensures
        r == known_opcode(opcode, p),
{
    (1 <= opcode && opcode <= 6) || (8 <= opcode && opcode <= 18) || (20 <= opcode && opcode <= 38)
        || (p == Platform::MacOs && 61 <= opcode && opcode <= 63)
}

/// Relies on libc::EIO: the platform's input/output error number.  Its sign
/// differs between targets, but it is never `i32::MIN`, so it can be negated.
#[verifier::external_body]
pub fn errno_io() -> (r: i32)
    ensures
        r > i32::MIN,
{
    libc::EIO
}

/// Relies on libc::ENOSYS: the platform's "not implemented" error number.
/// Its sign differs between targets, but it is never `i32::MIN`.
#[verifier::external_body]
pub fn errno_not_implemented() -> (r: i32)
    ensures
        r > i32::MIN,
{
    libc::ENOSYS
}

/// Relies on libc::EPROTO: the platform's protocol error number.  Its sign
/// differs between targets, but it is never `i32::MIN`.
#[verifier::external_body]
pub fn errno_protocol() -> (r: i32)
    ensures
        r > i32::MIN,
{
    libc::EPROTO
}

/// Wire size of [`SetAttrIn`] on `p`.
pub open spec fn spec_setattr_in_size(p: Platform) -> int {
    match p {
        Platform::Generic => 88,
        Platform::MacOs => 128,
    }
}

/// Wire size of [`SetAttrIn`] on `p`.
pub fn setattr_in_size(p: Platform) -> (r: usize)
    ensures
        r == spec_setattr_in_size(p),
{
    match p {
        Platform::Generic => 88,
        Platform::MacOs => 128,
    }
}

/// Arguments of a set-attributes request.  `valid` says which of the other
/// fields are set; the extended timestamps and `flags` exist on the wire only
/// on [`Platform::MacOs`] and read as zero elsewhere.
#[derive(Clone, Copy, Debug, PartialEq, Eq, Structural)]
pub struct SetAttrIn {
    pub valid: u32,
    pub fh: u64,
    pub size: u64,
    pub atime: u64,
    pub mtime: u64,
    pub atimensec: u32,
    pub mtimensec: u32,
    pub mode: u32,
    pub uid: u32,
    pub gid: u32,
    pub bkuptime: u64,
    pub chgtime: u64,
    pub crtime: u64,
    pub bkuptimensec: u32,
    pub chgtimensec: u32,
    pub crtimensec: u32,
    pub flags: u32,
}

impl SetAttrIn {
    /// The arguments stored at `d[o..o + spec_setattr_in_size(p)]`.
    pub open spec fn spec_at(d: Seq<u8>, o: int, p: Platform) -> Self {
        let mac = p == Platform::MacOs;
        SetAttrIn {
            valid: le_u32(d, o),
            fh: le_u64(d, o + 8),
            size: le_u64(d, o + 16),
            atime: le_u64(d, o + 32),
            mtime: le_u64(d, o + 40),
            atimensec: le_u32(d, o + 56),
            mtimensec: le_u32(d, o + 60),
            mode: le_u32(d, o + 68),
            uid: le_u32(d, o + 76),
            gid: le_u32(d, o + 80),
            bkuptime: if mac { le_u64(d, o + 88) } else { 0 },
            chgtime: if mac { le_u64(d, o + 96) } else { 0 },
            crtime: if mac { le_u64(d, o + 104) } else { 0 },
            bkuptimensec: if mac { le_u32(d, o + 112) } else { 0 },
            chgtimensec: if mac { le_u32(d, o + 116) } else { 0 },
            crtimensec: if mac { le_u32(d, o + 120) } else { 0 },
            flags: if mac { le_u32(d, o + 124) } else { 0 },
        }
    }

    /// Reads the arguments stored at `d[o..o + spec_setattr_in_size(p)]`.
    pub fn parse(d: &[u8], o: usize, p: Platform) -> (r: Self)
        requires
            o + spec_setattr_in_size(p) <= d@.len(),
        ensures
            r == Self::spec_at(d@, o as int, p),
    {
        let len = d.len();
        proof {
            assert(o <= len);
        }
        let mut r = SetAttrIn {
            valid: read_u32(d, o),
            fh: read_u64(d, o + 8),
            size: read_u64(d, o + 16),
            atime: read_u64(d, o + 32),
            mtime: read_u64(d, o + 40),
            atimensec: read_u32(d, o + 56),
            mtimensec: read_u32(d, o + 60),
            mode: read_u32(d, o + 68),
            uid: read_u32(d, o + 76),
            gid: read_u32(d, o + 80),
            bkuptime: 0,
            chgtime: 0,
            crtime: 0,
            bkuptimensec: 0,
            chgtimensec: 0,
            crtimensec: 0,
            flags: 0,
        };
        if p == Platform::MacOs {
            r.bkuptime = read_u64(d, o + 88);
            r.chgtime = read_u64(d, o + 96);
            r.crtime = read_u64(d, o + 104);
            r.bkuptimensec = read_u32(d, o + 112);
            r.chgtimensec = read_u32(d, o + 116);
            r.crtimensec = read_u32(d, o + 120);
            r.flags = read_u32(d, o + 124);
        }
        r
    }
}

/// Wire size of [`SetXAttrIn`] and of [`GetXAttrIn`] on `p`.
pub open spec fn spec_xattr_in_size(p: Platform) -> int {
    match p {
        Platform::Generic => 8,
        Platform::MacOs => 16,
    }
}

/// Wire size of [`SetXAttrIn`] and of [`GetXAttrIn`] on `p`.
pub fn xattr_in_size(p: Platform) -> (r: usize)
    ensures
        r == spec_xattr_in_size(p),
{
    match p {
        Platform::Generic => 8,
        Platform::MacOs => 16,
    }
}

/// Arguments of a set-extended-attribute request; the name and the value
/// follow.  `position` exists on the wire only on [`Platform::MacOs`].
#[derive(Clone, Copy, Debug, PartialEq, Eq, Structural)]
pub struct SetXAttrIn {
    pub size: u32,
    pub flags: u32,
    pub position: u32,
}

impl SetXAttrIn {
    /// The arguments stored at `d[o..o + spec_xattr_in_size(p)]`.
    pub open spec fn spec_at(d: Seq<u8>, o: int, p: Platform) -> Self {
        SetXAttrIn {
            size: le_u32(d, o),
            flags: le_u32(d, o + 4),
            position: if p == Platform::MacOs { le_u32(d, o + 8) } else { 0 },
        }
    }

    /// Reads the arguments stored at `d[o..o + spec_xattr_in_size(p)]`.
    pub fn parse(d: &[u8], o: usize, p: Platform) -> (r: Self)
        requires
            o + spec_xattr_in_size(p) <= d@.len(),
        ensures
            r == Self::spec_at(d@, o as int, p),
    {
        let len = d.len();
        proof {
            assert(o <= len);
        }
        let position = if p == Platform::MacOs { read_u32(d, o + 8) } else { 0 };
        SetXAttrIn { size: read_u32(d, o), flags: read_u32(d, o + 4), position }
    }
}

/// Arguments of the get- and list-extended-attribute requests: the size of
/// the caller's buffer.
#[derive(Clone, Copy, Debug, PartialEq, Eq, Structural)]
pub struct GetXAttrIn {
    pub size: u32,
}

impl GetXAttrIn {
    /// The arguments stored at `d[o..]`; only the leading size is read.
    pub open spec fn spec_at(d: Seq<u8>, o: int) -> Self {
        GetXAttrIn { size: le_u32(d, o) }
    }

    /// Reads the arguments stored at `d[o..]`; only the leading size is read.
    pub fn parse(d: &[u8], o: usize) -> (r: Self)
        requires
            o + 4 <= d@.len(),
        ensures
            r == Self::spec_at(d@, o as int),
    {
        GetXAttrIn { size: read_u32(d, o) }
    }
}

/// Wire size of [`InitIn`].
pub const INIT_IN_SIZE: usize = 16;

/// Arguments of a handshake request: the kernel's protocol version,
/// readahead and capability flags.
#[derive(Clone, Copy, Debug, PartialEq, Eq, Structural)]
pub struct InitIn {
    pub major: u32,
    pub minor: u32,
    pub max_readahead: u32,
    pub flags: u32,
}

impl InitIn {
    /// The arguments stored at `d[o..o + INIT_IN_SIZE]`.
    pub open spec fn spec_at(d: Seq<u8>, o: int) -> Self {
        InitIn {
            major: le_u32(d, o + 0),
            minor: le_u32(d, o + 4),
            max_readahead: le_u32(d, o + 8),
            flags: le_u32(d, o + 12),
        }
    }

    /// Reads the arguments stored at `d[o..o + INIT_IN_SIZE]`.
    pub fn parse(d: &[u8], o: usize) -> (r: Self)
        requires
            o + INIT_IN_SIZE <= d@.len(),
        ensures
            r == Self::spec_at(d@, o as int),
    {
        let len = d.len();
        proof {
            assert(o <= len);
        }
        InitIn {
            major: read_u32(d, o + 0),
            minor: read_u32(d, o + 4),
            max_readahead: read_u32(d, o + 8),
            flags: read_u32(d, o + 12),
        }
    }
}

/// Wire size of [`InterruptIn`].
pub const INTERRUPT_IN_SIZE: usize = 8;

/// Arguments of an interrupt request: the correlation id of the request
/// to cancel.
#[derive(Clone, Copy, Debug, PartialEq, Eq, Structural)]
pub struct InterruptIn {
    pub unique: u64,
}

impl InterruptIn {
    /// The arguments stored at `d[o..o + INTERRUPT_IN_SIZE]`.
    pub open spec fn spec_at(d: Seq<u8>, o: int) -> Self {
        InterruptIn {
            unique: le_u64(d, o + 0),
        }
    }

    /// Reads the arguments stored at `d[o..o + INTERRUPT_IN_SIZE]`.
    pub fn parse(d: &[u8], o: usize) -> (r: Self)
        requires
            o + INTERRUPT_IN_SIZE <= d@.len(),
        ensures
            r == Self::spec_at(d@, o as int),
    {
        let len = d.len();
        proof {
            assert(o <= len);
        }
        InterruptIn {
            unique: read_u64(d, o + 0),
        }
    }
}

/// Wire size of [`ForgetIn`].
pub const FORGET_IN_SIZE: usize = 8;

/// Arguments of a forget request: how many lookups to drop.
#[derive(Clone, Copy, Debug, PartialEq, Eq, Structural)]
pub struct ForgetIn {
    pub nlookup: u64,
}

impl ForgetIn {
    /// The arguments stored at `d[o..o + FORGET_IN_SIZE]`.
    pub open spec fn spec_at(d: Seq<u8>, o: int) -> Self {
        ForgetIn {
            nlookup: le_u64(d, o + 0),
        }
    }

    /// Reads the arguments stored at `d[o..o + FORGET_IN_SIZE]`.
    pub fn parse(d: &[u8], o: usize) -> (r: Self)
        requires
            o + FORGET_IN_SIZE <= d@.len(),
        ensures
            r == Self::spec_at(d@, o as int),
    {
        let len = d.len();
        proof {
            assert(o <= len);
        }
        ForgetIn {
            nlookup: read_u64(d, o + 0),
        }
    }
}

/// Wire size of [`MkNodIn`].
pub const MKNOD_IN_SIZE: usize = 8;

/// Arguments of a make-node request.
#[derive(Clone, Copy, Debug, PartialEq, Eq, Structural)]
pub struct MkNodIn {
    pub mode: u32,
    pub rdev: u32,
}

impl MkNodIn {
    /// The arguments stored at `d[o..o + MKNOD_IN_SIZE]`.
    pub open spec fn spec_at(d: Seq<u8>, o: int) -> Self {
        MkNodIn {
            mode: le_u32(d, o + 0),
            rdev: le_u32(d, o + 4),
        }
    }

    /// Reads the arguments stored at `d[o..o + MKNOD_IN_SIZE]`.
    pub fn parse(d: &[u8], o: usize) -> (r: Self)
        requires
            o + MKNOD_IN_SIZE <= d@.len(),
        ensures
            r == Self::spec_at(d@, o as int),
    {
        let len = d.len();
        proof {
            assert(o <= len);
        }
        MkNodIn {
            mode: read_u32(d, o + 0),
            rdev: read_u32(d, o + 4),
        }
    }
}

/// Wire size of [`MkDirIn`].
pub const MKDIR_IN_SIZE: usize = 8;

/// Arguments of a make-directory request.
#[derive(Clone, Copy, Debug, PartialEq, Eq, Structural)]
pub struct MkDirIn {
    pub mode: u32,
}

impl MkDirIn {
    /// The arguments stored at `d[o..o + MKDIR_IN_SIZE]`.
    pub open spec fn spec_at(d: Seq<u8>, o: int) -> Self {
        MkDirIn {
            mode: le_u32(d, o + 0),
        }
    }

    /// Reads the arguments stored at `d[o..o + MKDIR_IN_SIZE]`.
    pub fn parse(d: &[u8], o: usize) -> (r: Self)
        requires
            o + MKDIR_IN_SIZE <= d@.len(),
        ensures
            r == Self::spec_at(d@, o as int),
    {
        let len = d.len();
        proof {
            assert(o <= len);
        }
        MkDirIn {
            mode: read_u32(d, o + 0),
        }
    }
}

/// Wire size of [`RenameIn`].
pub const RENAME_IN_SIZE: usize = 8;

/// Arguments of a rename request: the target directory.
#[derive(Clone, Copy, Debug, PartialEq, Eq, Structural)]
pub struct RenameIn {
    pub newdir: u64,
}

impl RenameIn {
    /// The arguments stored at `d[o..o + RENAME_IN_SIZE]`.
    pub open spec fn spec_at(d: Seq<u8>, o: int) -> Self {
        RenameIn {
            newdir: le_u64(d, o + 0),
        }
    }

    /// Reads the arguments stored at `d[o..o + RENAME_IN_SIZE]`.
    pub fn parse(d: &[u8], o: usize) -> (r: Self)
        requires
            o + RENAME_IN_SIZE <= d@.len(),
        ensures
            r == Self::spec_at(d@, o as int),
    {
        let len = d.len();
        proof {
            assert(o <= len);
        }
        RenameIn {
            newdir: read_u64(d, o + 0),
        }
    }
}

/// Wire size of [`LinkIn`].
pub const LINK_IN_SIZE: usize = 8;

/// Arguments of a hard-link request: the node linked to.
#[derive(Clone, Copy, Debug, PartialEq, Eq, Structural)]
pub struct LinkIn {
    pub oldnodeid: u64,
}

impl LinkIn {
    /// The arguments stored at `d[o..o + LINK_IN_SIZE]`.
    pub open spec fn spec_at(d: Seq<u8>, o: int) -> Self {
        LinkIn {
            oldnodeid: le_u64(d, o + 0),
        }
    }

    /// Reads the arguments stored at `d[o..o + LINK_IN_SIZE]`.
    pub fn parse(d: &[u8], o: usize) -> (r: Self)
        requires
            o + LINK_IN_SIZE <= d@.len(),
        ensures
            r == Self::spec_at(d@, o as int),
    {
        let len = d.len();
        proof {
            assert(o <= len);
        }
        LinkIn {
            oldnodeid: read_u64(d, o + 0),
        }
    }
}

/// Wire size of [`OpenIn`].
pub const OPEN_IN_SIZE: usize = 8;

/// Arguments of the open and open-directory requests.
#[derive(Clone, Copy, Debug, PartialEq, Eq, Structural)]
pub struct OpenIn {
    pub flags: u32,
}

impl OpenIn {
    /// The arguments stored at `d[o..o + OPEN_IN_SIZE]`.
    pub open spec fn spec_at(d: Seq<u8>, o: int) -> Self {
        OpenIn {
            flags: le_u32(d, o + 0),
        }
    }

    /// Reads the arguments stored at `d[o..o + OPEN_IN_SIZE]`.
    pub fn parse(d: &[u8], o: usize) -> (r: Self)
        requires
            o + OPEN_IN_SIZE <= d@.len(),
        ensures
            r == Self::spec_at(d@, o as int),
    {
        let len = d.len();
        proof {
            assert(o <= len);
        }
        OpenIn {
            flags: read_u32(d, o + 0),
        }
    }
}

/// Wire size of [`ReadIn`].
pub const READ_IN_SIZE: usize = 24;

/// Arguments of the read and read-directory requests.
#[derive(Clone, Copy, Debug, PartialEq, Eq, Structural)]
pub struct ReadIn {
    pub fh: u64,
    pub offset: u64,
    pub size: u32,
}

impl ReadIn {
    /// The arguments stored at `d[o..o + READ_IN_SIZE]`.
    pub open spec fn spec_at(d: Seq<u8>, o: int) -> Self {
        ReadIn {
            fh: le_u64(d, o + 0),
            offset: le_u64(d, o + 8),
            size: le_u32(d, o + 16),
        }
    }

    /// Reads the arguments stored at `d[o..o + READ_IN_SIZE]`.
    pub fn parse(d: &[u8], o: usize) -> (r: Self)
        requires
            o + READ_IN_SIZE <= d@.len(),
        ensures
            r == Self::spec_at(d@, o as int),
    {
        let len = d.len();
        proof {
            assert(o <= len);
        }
        ReadIn {
            fh: read_u64(d, o + 0),
            offset: read_u64(d, o + 8),
            size: read_u32(d, o + 16),
        }
    }
}

/// Wire size of [`WriteIn`].
pub const WRITE_IN_SIZE: usize = 24;

/// Arguments of a write request; the payload follows it.
#[derive(Clone, Copy, Debug, PartialEq, Eq, Structural)]
pub struct WriteIn {
    pub fh: u64,
    pub offset: u64,
    pub size: u32,
    pub write_flags: u32,
}

impl WriteIn {
    /// The arguments stored at `d[o..o + WRITE_IN_SIZE]`.
    pub open spec fn spec_at(d: Seq<u8>, o: int) -> Self {
        WriteIn {
            fh: le_u64(d, o + 0),
            offset: le_u64(d, o + 8),
            size: le_u32(d, o + 16),
            write_flags: le_u32(d, o + 20),
        }
    }

    /// Reads the arguments stored at `d[o..o + WRITE_IN_SIZE]`.
    pub fn parse(d: &[u8], o: usize) -> (r: Self)
        requires
            o + WRITE_IN_SIZE <= d@.len(),
        ensures
            r == Self::spec_at(d@, o as int),
    {
        let len = d.len();
        proof {
            assert(o <= len);
        }
        WriteIn {
            fh: read_u64(d, o + 0),
            offset: read_u64(d, o + 8),
            size: read_u32(d, o + 16),
            write_flags: read_u32(d, o + 20),
        }
    }
}

/// Wire size of [`FlushIn`].
pub const FLUSH_IN_SIZE: usize = 24;

/// Arguments of a flush request.
#[derive(Clone, Copy, Debug, PartialEq, Eq, Structural)]
pub struct FlushIn {
    pub fh: u64,
    pub lock_owner: u64,
}

impl FlushIn {
    /// The arguments stored at `d[o..o + FLUSH_IN_SIZE]`.
    pub open spec fn spec_at(d: Seq<u8>, o: int) -> Self {
        FlushIn {
            fh: le_u64(d, o + 0),
            lock_owner: le_u64(d, o + 16),
        }
    }

    /// Reads the arguments stored at `d[o..o + FLUSH_IN_SIZE]`.
    pub fn parse(d: &[u8], o: usize) -> (r: Self)
        requires
            o + FLUSH_IN_SIZE <= d@.len(),
        ensures
            r == Self::spec_at(d@, o as int),
    {
        let len = d.len();
        proof {
            assert(o <= len);
        }
        FlushIn {
            fh: read_u64(d, o + 0),
            lock_owner: read_u64(d, o + 16),
        }
    }
}

/// Wire size of [`ReleaseIn`].
pub const RELEASE_IN_SIZE: usize = 24;

/// Arguments of the release and release-directory requests.
#[derive(Clone, Copy, Debug, PartialEq, Eq, Structural)]
pub struct ReleaseIn {
    pub fh: u64,
    pub flags: u32,
    pub release_flags: u32,
    pub lock_owner: u64,
}

impl ReleaseIn {
    /// The arguments stored at `d[o..o + RELEASE_IN_SIZE]`.
    pub open spec fn spec_at(d: Seq<u8>, o: int) -> Self {
        ReleaseIn {
            fh: le_u64(d, o + 0),
            flags: le_u32(d, o + 8),
            release_flags: le_u32(d, o + 12),
            lock_owner: le_u64(d, o + 16),
        }
    }

    /// Reads the arguments stored at `d[o..o + RELEASE_IN_SIZE]`.
    pub fn parse(d: &[u8], o: usize) -> (r: Self)
        requires
            o + RELEASE_IN_SIZE <= d@.len(),
        ensures
            r == Self::spec_at(d@, o as int),
    {
        let len = d.len();
        proof {
            assert(o <= len);
        }
        ReleaseIn {
            fh: read_u64(d, o + 0),
            flags: read_u32(d, o + 8),
            release_flags: read_u32(d, o + 12),
            lock_owner: read_u64(d, o + 16),
        }
    }
}

/// Wire size of [`FsyncIn`].
pub const FSYNC_IN_SIZE: usize = 16;

/// Arguments of the fsync and fsync-directory requests.
#[derive(Clone, Copy, Debug, PartialEq, Eq, Structural)]
pub struct FsyncIn {
    pub fh: u64,
    pub fsync_flags: u32,
}

impl FsyncIn {
    /// The arguments stored at `d[o..o + FSYNC_IN_SIZE]`.
    pub open spec fn spec_at(d: Seq<u8>, o: int) -> Self {
        FsyncIn {
            fh: le_u64(d, o + 0),
            fsync_flags: le_u32(d, o + 8),
        }
    }

    /// Reads the arguments stored at `d[o..o + FSYNC_IN_SIZE]`.
    pub fn parse(d: &[u8], o: usize) -> (r: Self)
        requires
            o + FSYNC_IN_SIZE <= d@.len(),
        ensures
            r == Self::spec_at(d@, o as int),
    {
        let len = d.len();
        proof {
            assert(o <= len);
        }
        FsyncIn {
            fh: read_u64(d, o + 0),
            fsync_flags: read_u32(d, o + 8),
        }
    }
}

/// Wire size of [`AccessIn`].
pub const ACCESS_IN_SIZE: usize = 8;

/// Arguments of an access-check request.
#[derive(Clone, Copy, Debug, PartialEq, Eq, Structural)]
pub struct AccessIn {
    pub mask: u32,
}

impl AccessIn {
    /// The arguments stored at `d[o..o + ACCESS_IN_SIZE]`.
    pub open spec fn spec_at(d: Seq<u8>, o: int) -> Self {
        AccessIn {
            mask: le_u32(d, o + 0),
        }
    }

    /// Reads the arguments stored at `d[o..o + ACCESS_IN_SIZE]`.
    pub fn parse(d: &[u8], o: usize) -> (r: Self)
        requires
            o + ACCESS_IN_SIZE <= d@.len(),
        ensures
            r == Self::spec_at(d@, o as int),
    {
        let len = d.len();
        proof {
            assert(o <= len);
        }
        AccessIn {
            mask: read_u32(d, o + 0),
        }
    }
}

/// Wire size of [`CreateIn`].
pub const CREATE_IN_SIZE: usize = 8;

/// Arguments of a create request.
#[derive(Clone, Copy, Debug, PartialEq, Eq, Structural)]
pub struct CreateIn {
    pub flags: u32,
    pub mode: u32,
}

impl CreateIn {
    /// The arguments stored at `d[o..o + CREATE_IN_SIZE]`.
    pub open spec fn spec_at(d: Seq<u8>, o: int) -> Self {
        CreateIn {
            flags: le_u32(d, o + 0),
            mode: le_u32(d, o + 4),
        }
    }

    /// Reads the arguments stored at `d[o..o + CREATE_IN_SIZE]`.
    pub fn parse(d: &[u8], o: usize) -> (r: Self)
        requires
            o + CREATE_IN_SIZE <= d@.len(),
        ensures
            r == Self::spec_at(d@, o as int),
    {
        let len = d.len();
        proof {
            assert(o <= len);
        }
        CreateIn {
            flags: read_u32(d, o + 0),
            mode: read_u32(d, o + 4),
        }
    }
}

/// Wire size of [`LkIn`].
pub const LK_IN_SIZE: usize = 40;

/// Arguments of the record-lock requests.
#[derive(Clone, Copy, Debug, PartialEq, Eq, Structural)]
pub struct LkIn {
    pub fh: u64,
    pub owner: u64,
    pub start: u64,
    pub end: u64,
    pub typ: u32,
    pub pid: u32,
}

impl LkIn {
    /// The arguments stored at `d[o..o + LK_IN_SIZE]`.
    pub open spec fn spec_at(d: Seq<u8>, o: int) -> Self {
        LkIn {
            fh: le_u64(d, o + 0),
            owner: le_u64(d, o + 8),
            start: le_u64(d, o + 16),
            end: le_u64(d, o + 24),
            typ: le_u32(d, o + 32),
            pid: le_u32(d, o + 36),
        }
    }

    /// Reads the arguments stored at `d[o..o + LK_IN_SIZE]`.
    pub fn parse(d: &[u8], o: usize) -> (r: Self)
        requires
            o + LK_IN_SIZE <= d@.len(),
        ensures
            r == Self::spec_at(d@, o as int),
    {
        let len = d.len();
        proof {
            assert(o <= len);
        }
        LkIn {
            fh: read_u64(d, o + 0),
            owner: read_u64(d, o + 8),
            start: read_u64(d, o + 16),
            end: read_u64(d, o + 24),
            typ: read_u32(d, o + 32),
            pid: read_u32(d, o + 36),
        }
    }
}

/// Wire size of [`BMapIn`].
pub const BMAP_IN_SIZE: usize = 16;

/// Arguments of a block-map request.
#[derive(Clone, Copy, Debug, PartialEq, Eq, Structural)]
pub struct BMapIn {
    pub block: u64,
    pub blocksize: u32,
}

impl BMapIn {
    /// The arguments stored at `d[o..o + BMAP_IN_SIZE]`.
    pub open spec fn spec_at(d: Seq<u8>, o: int) -> Self {
        BMapIn {
            block: le_u64(d, o + 0),
            blocksize: le_u32(d, o + 8),
        }
    }

    /// Reads the arguments stored at `d[o..o + BMAP_IN_SIZE]`.
    pub fn parse(d: &[u8], o: usize) -> (r: Self)
        requires
            o + BMAP_IN_SIZE <= d@.len(),
        ensures
            r == Self::spec_at(d@, o as int),
    {
        let len = d.len();
        proof {
            assert(o <= len);
        }
        BMapIn {
            block: read_u64(d, o + 0),
            blocksize: read_u32(d, o + 8),
        }
    }
}

/// Wire size of [`ExchangeIn`].
pub const EXCHANGE_IN_SIZE: usize = 24;

/// Arguments of an atomic exchange request.
#[derive(Clone, Copy, Debug, PartialEq, Eq, Structural)]
pub struct ExchangeIn {
    pub olddir: u64,
    pub newdir: u64,
    pub options: u64,
}

impl ExchangeIn {
    /// The arguments stored at `d[o..o + EXCHANGE_IN_SIZE]`.
    pub open spec fn spec_at(d: Seq<u8>, o: int) -> Self {
        ExchangeIn {
            olddir: le_u64(d, o + 0),
            newdir: le_u64(d, o + 8),
            options: le_u64(d, o + 16),
        }
    }

    /// Reads the arguments stored at `d[o..o + EXCHANGE_IN_SIZE]`.
    pub fn parse(d: &[u8], o: usize) -> (r: Self)
        requires
            o + EXCHANGE_IN_SIZE <= d@.len(),
        ensures
            r == Self::spec_at(d@, o as int),
    {
        let len = d.len();
        proof {
            assert(o <= len);
        }
        ExchangeIn {
            olddir: read_u64(d, o + 0),
            newdir: read_u64(d, o + 8),
            options: read_u64(d, o + 16),
        }
    }
}
} // verus!
