//! Reply objects.  Each is bound to one request's correlation id, and each
//! terminal method consumes it, so a request is answered at most once.

use crate::abi::OUT_HEADER_SIZE;
use crate::bytes::{le_u64, lemma_u64_round_trip, push_u32, push_u64, u32_bytes, u64_bytes};
use vstd::prelude::*;

verus! {

/// The reply header: total length, error (zero or a negated error number)
/// and correlation id.
pub open spec fn spec_out_header(len: u32, error: i32, unique: u64) -> Seq<u8> {
    u32_bytes(len) + u32_bytes(error as u32) + u64_bytes(unique)
}

/// A successful reply carrying `payload`.
pub open spec fn spec_ok_reply(unique: u64, payload: Seq<u8>) -> Seq<u8> {
    spec_out_header((OUT_HEADER_SIZE + payload.len()) as u32, 0, unique) + payload
}

/// An error reply for the error number `err`.
pub open spec fn spec_error_reply(unique: u64, err: i32) -> Seq<u8> {
    spec_out_header(OUT_HEADER_SIZE as u32, (-err) as i32, unique)
}

/// The correlation id carried by the reply bytes `b`.
pub open spec fn reply_unique(b: Seq<u8>) -> u64 {
    le_u64(b, 8)
}

/// Every reply starts with its header, so its correlation id can be read
/// back from it.
pub proof fn lemma_reply_carries_unique(len: u32, error: i32, unique: u64, rest: Seq<u8>)
    ensures
        reply_unique(spec_out_header(len, error, unique) + rest) == unique,
        (spec_out_header(len, error, unique) + rest).len() == OUT_HEADER_SIZE + rest.len(),
{
    let b = spec_out_header(len, error, unique) + rest;
    assert(b.subrange(8, 16) =~= u64_bytes(unique));
    lemma_u64_round_trip(unique, b, 8);
}

/// Every reply, an error or a success with any payload, carries the
/// correlation id it was built with.
pub proof fn lemma_replies_echo_unique(unique: u64, err: i32, payload: Seq<u8>)
    ensures
        reply_unique(spec_error_reply(unique, err)) == unique,
        reply_unique(spec_ok_reply(unique, payload)) == unique,
{
    lemma_reply_carries_unique(OUT_HEADER_SIZE as u32, (-err) as i32, unique, Seq::empty());
    let header = spec_out_header(OUT_HEADER_SIZE as u32, (-err) as i32, unique);
    assert(spec_error_reply(unique, err) =~= header + Seq::<u8>::empty());
    lemma_reply_carries_unique((OUT_HEADER_SIZE + payload.len()) as u32, 0, unique, payload);
}

fn out_header(len: u32, error: i32, unique: u64) -> (r: Vec<u8>)
    ensures
        r@ == spec_out_header(len, error, unique),
{
    let mut v: Vec<u8> = Vec::new();
    push_u32(&mut v, len);
    push_u32(&mut v, error as u32);
    push_u64(&mut v, unique);
    assert(v@ =~= spec_out_header(len, error, unique));
    v
}

/// A reply to one request.
#[derive(Debug)]
pub struct Reply {
    unique: u64,
}

impl Reply {
    /// The correlation id this reply is bound to.
    pub closed spec fn id(&self) -> u64 {
        self.unique
    }

    /// A reply bound to the correlation id `unique`.
    pub fn new(unique: u64) -> (r: Reply)
        ensures
            r.id() == unique,
    {
        Reply { unique }
    }

    /// The correlation id this reply is bound to.
    pub fn unique(&self) -> (r: u64)
        ensures
            r == self.id(),
    {
        self.unique
    }

    /// Answers with success and the serialized `payload`.
    pub fn ok(self, payload: &[u8]) -> (r: Vec<u8>)
        requires
            OUT_HEADER_SIZE + payload@.len() <= u32::MAX,
        ensures
            r@ == spec_ok_reply(self.id(), payload@),
            reply_unique(r@) == self.id(),
    {
        let mut v = out_header((OUT_HEADER_SIZE + payload.len()) as u32, 0, self.unique);
        let ghost head = v@;
        let mut i: usize = 0;
        while i < payload.len()
            invariant
                i <= payload@.len(),
                v@ == head + payload@.subrange(0, i as int),
            decreases payload@.len() - i,
        {
            v.push(payload[i]);
            i = i + 1;
            assert(v@ =~= head + payload@.subrange(0, i as int));
        }
        assert(payload@.subrange(0, i as int) =~= payload@);
        proof {
            lemma_reply_carries_unique(
                (OUT_HEADER_SIZE + payload@.len()) as u32,
                0,
                self.unique,
                payload@,
            );
        }
        v
    }

    /// Answers with success and no payload.
    pub fn ok_empty(self) -> (r: Vec<u8>)
        ensures
            r@ == spec_ok_reply(self.id(), Seq::empty()),
            reply_unique(r@) == self.id(),
    {
        let v = out_header(OUT_HEADER_SIZE as u32, 0, self.unique);
        proof {
            lemma_reply_carries_unique(OUT_HEADER_SIZE as u32, 0, self.unique, Seq::empty());
            assert(v@ =~= spec_ok_reply(self.unique, Seq::empty()));
        }
        v
    }

    /// Answers a write with the number of bytes written.
    pub fn ok_write(self, size: u32) -> (r: Vec<u8>)
        ensures
            r@ == spec_ok_reply(self.id(), u32_bytes(size) + u32_bytes(0)),
            reply_unique(r@) == self.id(),
    {
        let mut payload: Vec<u8> = Vec::new();
        push_u32(&mut payload, size);
        push_u32(&mut payload, 0);
        self.ok(payload.as_slice())
    }

    /// Answers an open or open-directory with the file handle and open
    /// flags.
    pub fn ok_open(self, fh: u64, flags: u32) -> (r: Vec<u8>)
        ensures
            r@ == spec_ok_reply(self.id(), u64_bytes(fh) + u32_bytes(flags) + u32_bytes(0)),
            reply_unique(r@) == self.id(),
    {
        let mut payload: Vec<u8> = Vec::new();
        push_u64(&mut payload, fh);
        push_u32(&mut payload, flags);
        push_u32(&mut payload, 0);
        self.ok(payload.as_slice())
    }

    /// Answers a get- or list-extended-attribute asked with size zero with
    /// the size the value needs.
    pub fn ok_xattr_size(self, size: u32) -> (r: Vec<u8>)
        ensures
            r@ == spec_ok_reply(self.id(), u32_bytes(size) + u32_bytes(0)),
            reply_unique(r@) == self.id(),
    {
        let mut payload: Vec<u8> = Vec::new();
        push_u32(&mut payload, size);
        push_u32(&mut payload, 0);
        self.ok(payload.as_slice())
    }

    /// Answers a block-map with the device block.
    pub fn ok_bmap(self, block: u64) -> (r: Vec<u8>)
        ensures
            r@ == spec_ok_reply(self.id(), u64_bytes(block)),
            reply_unique(r@) == self.id(),
    {
        let mut payload: Vec<u8> = Vec::new();
        push_u64(&mut payload, block);
        self.ok(payload.as_slice())
    }

    /// Answers with the error number `err`; the wire carries it negated.
    pub fn error(self, err: i32) -> (r: Vec<u8>)
        requires
            err > i32::MIN,
        ensures
            r@ == spec_error_reply(self.id(), err),
            reply_unique(r@) == self.id(),
    {
        let v = out_header(OUT_HEADER_SIZE as u32, -err, self.unique);
        proof {
            let error = (-err) as i32;
            lemma_reply_carries_unique(OUT_HEADER_SIZE as u32, error, self.unique, Seq::empty());
            assert(v@ =~= v@ + Seq::<u8>::empty());
        }
        v
    }
}

/// Zero bytes that pad a directory entry with a name of `n` bytes to a
/// multiple of eight.
pub open spec fn dirent_padding(n: nat) -> nat {
    ((8 - n % 8) % 8) as nat
}

/// Wire size of a directory entry with a name of `n` bytes.
pub open spec fn dirent_size(n: nat) -> nat {
    24 + n + dirent_padding(n)
}

/// The wire form of a directory entry's fixed part; the offset is stored as
/// its two's-complement bits.
pub open spec fn dirent_head(ino: u64, offset: i64, namelen: u32, kind: u32) -> Seq<u8> {
    u64_bytes(ino) + u64_bytes(#[verifier::truncate] (offset as u64)) + u32_bytes(namelen)
        + u32_bytes(kind)
}

/// The wire form of a directory entry.
pub open spec fn spec_dirent(ino: u64, offset: i64, kind: u32, name: Seq<u8>) -> Seq<u8> {
    dirent_head(ino, offset, name.len() as u32, kind) + name + Seq::new(
        dirent_padding(name.len()),
        |i: int| 0u8,
    )
}

/// Largest byte budget of a directory reply: the entries and the reply
/// header must fit the header's 32-bit length field.
pub const MAX_DIRECTORY_BUDGET: usize = 4294967279;

/// A directory listing reply: entries are collected up to a byte budget set
/// by the request, then sent at once.
#[derive(Debug)]
pub struct ReplyDirectory {
    unique: u64,
    max_size: usize,
    data: Vec<u8>,
}

impl ReplyDirectory {
    #[verifier::type_invariant]
    spec fn within_budget(&self) -> bool {
        self.data@.len() <= self.max_size <= MAX_DIRECTORY_BUDGET
    }

    /// The correlation id this reply is bound to.
    pub closed spec fn id(&self) -> u64 {
        self.unique
    }

    /// The byte budget for the entries.
    pub closed spec fn budget(&self) -> nat {
        self.max_size as nat
    }

    /// The wire form of the entries collected so far.
    pub closed spec fn entries(&self) -> Seq<u8> {
        self.data@
    }

    /// An empty listing bound to `unique`, with a budget of `size` bytes
    /// (at most `MAX_DIRECTORY_BUDGET`).
    pub fn new(unique: u64, size: usize) -> (r: ReplyDirectory)
        ensures
            r.id() == unique,
            r.budget() == if size <= MAX_DIRECTORY_BUDGET {
                size
            } else {
                MAX_DIRECTORY_BUDGET
            },
            r.entries() == Seq::<u8>::empty(),
    {
        let max_size = if size <= MAX_DIRECTORY_BUDGET {
            size
        } else {
            MAX_DIRECTORY_BUDGET
        };
        ReplyDirectory { unique, max_size, data: Vec::new() }
    }

    /// Adds an entry unless it would exceed the budget; gives `true` when
    /// the listing is full and the entry was left out.
    pub fn add(&mut self, ino: u64, offset: i64, kind: u32, name: &[u8]) -> (full: bool)
        ensures
            final(self).id() == old(self).id(),
            final(self).budget() == old(self).budget(),
            full == (old(self).entries().len() + dirent_size(name@.len()) > old(self).budget()),
            full ==> final(self).entries() == old(self).entries(),
            !full ==> final(self).entries() == old(self).entries() + spec_dirent(
                ino,
                offset,
                kind,
                name@,
            ),
    {
        proof {
            use_type_invariant(&*self);
        }
        let n = name.len();
        if n > self.max_size {
            return true;
        }
        let pad: usize = (8 - n % 8) % 8;
        let size: u64 = 24 + n as u64 + pad as u64;
        if self.data.len() as u64 + size > self.max_size as u64 {
            return true;
        }
        let mut data: Vec<u8> = Vec::new();
        std::mem::swap(&mut self.data, &mut data);
        let ghost before = data@;
        push_u64(&mut data, ino);
        push_u64(&mut data, #[verifier::truncate] (offset as u64));
        push_u32(&mut data, n as u32);
        push_u32(&mut data, kind);
        assert(data@ =~= before + dirent_head(ino, offset, n as u32, kind) + name@.subrange(0, 0));
        let mut i: usize = 0;
        while i < n
            invariant
                n == name@.len(),
                i <= n,
                data@ == before + dirent_head(ino, offset, n as u32, kind) + name@.subrange(
                    0,
                    i as int,
                ),
            decreases n - i,
        {
            data.push(name[i]);
            i = i + 1;
            assert(data@ =~= before + dirent_head(ino, offset, n as u32, kind) + name@.subrange(
                0,
                i as int,
            ));
        }
        let ghost named = data@;
        let mut j: usize = 0;
        while j < pad
            invariant
                j <= pad,
                data@ == named + Seq::new(j as nat, |k: int| 0u8),
            decreases pad - j,
        {
            data.push(0);
            j = j + 1;
            assert(data@ =~= named + Seq::new(j as nat, |k: int| 0u8));
        }
        assert(name@.subrange(0, n as int) =~= name@);
        assert(data@ =~= before + spec_dirent(ino, offset, kind, name@));
        std::mem::swap(&mut self.data, &mut data);
        false
    }

    /// Sends the listing collected so far.
    pub fn ok(self) -> (r: Vec<u8>)
        ensures
            r@ == spec_ok_reply(self.id(), self.entries()),
            reply_unique(r@) == self.id(),
    {
        proof {
            use_type_invariant(&self);
        }
        let reply = Reply::new(self.unique);
        reply.ok(self.data.as_slice())
    }
}

} // verus!
