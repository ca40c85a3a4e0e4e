//! Per-connection protocol state: the negotiated version and the
//! uninitialized → initialized → destroyed life cycle.

use crate::abi::{
    errno_io, errno_not_implemented, errno_protocol, init_flags, spec_init_flags, InitIn,
    Platform, INIT_OUT_SIZE, KERNEL_MINOR_VERSION, KERNEL_VERSION, MIN_MAJOR, MIN_MINOR,
};
use crate::bytes::{push_u32, u32_bytes};
use crate::reply::{reply_unique, spec_error_reply, spec_ok_reply, Reply};
use vstd::prelude::*;

verus! {

/// The platform's error numbers for the errors the protocol layer answers
/// with itself.
#[derive(Clone, Copy, Debug)]
pub struct ErrorCodes {
    io: i32,
    not_implemented: i32,
    protocol: i32,
}

impl ErrorCodes {
    #[verifier::type_invariant]
    spec fn negatable(&self) -> bool {
        self.io > i32::MIN && self.not_implemented > i32::MIN && self.protocol > i32::MIN
    }

    /// Input/output error: the answer to an operation out of sequence.
    pub closed spec fn spec_io(&self) -> i32 {
        self.io
    }

    /// "Not implemented": the answer to an interrupt.
    pub closed spec fn spec_not_implemented(&self) -> i32 {
        self.not_implemented
    }

    /// Protocol error: the answer to a handshake with an unsupported version.
    pub closed spec fn spec_protocol(&self) -> i32 {
        self.protocol
    }

    /// The error numbers of the platform this library runs on.
    pub fn platform() -> (r: ErrorCodes)
        ensures
            r.spec_io() > i32::MIN,
            r.spec_not_implemented() > i32::MIN,
            r.spec_protocol() > i32::MIN,
    {
        ErrorCodes {
            io: errno_io(),
            not_implemented: errno_not_implemented(),
            protocol: errno_protocol(),
        }
    }

    /// Input/output error number.
    pub fn io(&self) -> (r: i32)
        ensures
            r == self.spec_io(),
            r > i32::MIN,
    {
        proof {
            use_type_invariant(self);
        }
        self.io
    }

    /// "Not implemented" error number.
    pub fn not_implemented(&self) -> (r: i32)
        ensures
            r == self.spec_not_implemented(),
            r > i32::MIN,
    {
        proof {
            use_type_invariant(self);
        }
        self.not_implemented
    }

    /// Protocol error number.
    pub fn protocol(&self) -> (r: i32)
        ensures
            r == self.spec_protocol(),
            r > i32::MIN,
    {
        proof {
            use_type_invariant(self);
        }
        self.protocol
    }
}

/// Where a session is in its life cycle.
#[derive(Clone, Copy, Debug, PartialEq, Eq, Structural)]
pub enum SessionState {
    /// No handshake has succeeded yet.
    Uninitialized,
    /// A handshake succeeded and no teardown came yet.
    Initialized,
    /// Teardown was processed; nothing more is served.
    Destroyed,
}

/// The state of one connection to the kernel driver.
#[derive(Debug)]
pub struct Session {
    /// The driver flavour; it decides the capability flags offered.
    pub platform: Platform,
    /// Capacity of the receive buffer; the negotiated readahead never
    /// exceeds it.
    pub buffer_size: u32,
    /// Largest write payload announced in the handshake reply.
    pub max_write: u32,
    /// Major protocol version of the kernel driver, once negotiated.
    pub proto_major: u32,
    /// Minor protocol version of the kernel driver, once negotiated.
    pub proto_minor: u32,
    /// Life-cycle state.
    pub state: SessionState,
    /// Error numbers used in the replies the session gives itself.
    pub errors: ErrorCodes,
}

/// Whether a handshake advertising `major.minor` is accepted: the version
/// must be at least `MIN_MAJOR.MIN_MINOR`.
pub open spec fn version_supported(major: u32, minor: u32) -> bool {
    major > MIN_MAJOR || (major == MIN_MAJOR && minor >= MIN_MINOR)
}

/// The payload of a successful handshake reply: this library's version, the
/// readahead capped at the buffer size, the common capability flags, and the
/// largest write.
pub open spec fn spec_init_out(buffer_size: u32, max_write: u32, p: Platform, arg: InitIn) -> Seq<
    u8,
> {
    u32_bytes(KERNEL_VERSION) + u32_bytes(KERNEL_MINOR_VERSION) + u32_bytes(
        if buffer_size < arg.max_readahead {
            buffer_size
        } else {
            arg.max_readahead
        },
    ) + u32_bytes(arg.flags & spec_init_flags(p)) + u32_bytes(0) + u32_bytes(max_write)
}

/// The readahead field of a handshake reply payload.
pub open spec fn init_out_readahead(b: Seq<u8>) -> u32 {
    crate::bytes::le_u32(b, 8)
}

impl Session {
    /// A fresh session, waiting for its handshake.
    pub fn new(platform: Platform, buffer_size: u32, max_write: u32) -> (r: Session)
        ensures
            r.platform == platform,
            r.buffer_size == buffer_size,
            r.max_write == max_write,
            r.proto_major == 0,
            r.proto_minor == 0,
            r.state == SessionState::Uninitialized,
            r.errors.spec_io() > i32::MIN,
            r.errors.spec_not_implemented() > i32::MIN,
            r.errors.spec_protocol() > i32::MIN,
    {
        Session {
            platform,
            buffer_size,
            max_write,
            proto_major: 0,
            proto_minor: 0,
            state: SessionState::Uninitialized,
            errors: ErrorCodes::platform(),
        }
    }

    /// Whether the handshake has succeeded and no teardown came yet.
    pub fn is_initialized(&self) -> (r: bool)
        ensures
            r == (self.state == SessionState::Initialized),
    {
        self.state == SessionState::Initialized
    }

    /// Finishes a handshake once the filesystem's own initialization has
    /// given `result`.  A session that is not waiting for a handshake answers
    /// with the I/O error, an unsupported version with the protocol error,
    /// and a failed initialization with its error; in those cases the session
    /// does not change.  Otherwise the session records the version, becomes
    /// initialized, and answers with the negotiated settings.
    pub fn complete_init(&mut self, arg: InitIn, reply: Reply, result: Result<(), i32>) -> (r:
        Vec<u8>)
        requires
            result matches Err(e) ==> e > i32::MIN,
        ensures
            reply_unique(r@) == reply.id(),
            old(self).state != SessionState::Uninitialized ==> r@ == spec_error_reply(
                reply.id(),
                old(self).errors.spec_io(),
            ) && *final(self) == *old(self),
            old(self).state == SessionState::Uninitialized && !version_supported(
                arg.major,
                arg.minor,
            ) ==> r@ == spec_error_reply(reply.id(), old(self).errors.spec_protocol())
                && *final(self) == *old(self),
            old(self).state == SessionState::Uninitialized && version_supported(
                arg.major,
                arg.minor,
            ) ==> match result {
                Err(e) => r@ == spec_error_reply(reply.id(), e) && *final(self) == *old(self),
                Ok(()) => {
                    &&& r@ == spec_ok_reply(
                        reply.id(),
                        spec_init_out(
                            old(self).buffer_size,
                            old(self).max_write,
                            old(self).platform,
                            arg,
                        ),
                    )
                    &&& *final(self) == Session {
                        proto_major: arg.major,
                        proto_minor: arg.minor,
                        state: SessionState::Initialized,
                        ..*old(self)
                    }
                },
            },
    {
        if self.state != SessionState::Uninitialized {
            return reply.error(self.errors.io());
        }
        if !(arg.major > MIN_MAJOR || (arg.major == MIN_MAJOR && arg.minor >= MIN_MINOR)) {
            return reply.error(self.errors.protocol());
        }
        match result {
            Err(e) => reply.error(e),
            Ok(()) => {
                let mut out: Vec<u8> = Vec::new();
                push_u32(&mut out, KERNEL_VERSION);
                push_u32(&mut out, KERNEL_MINOR_VERSION);
                push_u32(
                    &mut out,
                    if self.buffer_size < arg.max_readahead {
                        self.buffer_size
                    } else {
                        arg.max_readahead
                    },
                );
                push_u32(&mut out, arg.flags & init_flags(self.platform));
                push_u32(&mut out, 0);
                push_u32(&mut out, self.max_write);
                let ghost expected = spec_init_out(
                    self.buffer_size,
                    self.max_write,
                    self.platform,
                    arg,
                );
                assert(out@ =~= expected);
                assert(out@.len() == INIT_OUT_SIZE);
                self.proto_major = arg.major;
                self.proto_minor = arg.minor;
                self.state = SessionState::Initialized;
                reply.ok(out.as_slice())
            },
        }
    }
}

} // verus!
