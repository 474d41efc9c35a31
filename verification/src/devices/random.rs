//! `HYPERCALL_GET_RANDOM` emulation state.
//!
//! Guest randomness is served either from an in-VM xorshift64 generator
//! (deterministic, no round-trip) or by exiting to userspace on each request
//! so that the fuzzer supplies the exact bytes.
use vstd::prelude::*;
use crate::logging::hash::{StateHash, Xxh64Hasher};

verus! {

/// Maximum bytes served by a single random-bytes request.
pub const RANDOM_REPLY_MAX: usize = 256;

/// Source of guest randomness.
#[derive(Debug, Clone, Copy, PartialEq, Eq, Structural)]
pub enum RdrandMode {
    /// Values come from the seeded in-VM xorshift64 generator.
    SeededRng,
    /// Each request exits to userspace, which supplies the bytes.
    ExitToUserspace,
}

impl RdrandMode {
    /// Numeric code of the mode.
    pub fn code(&self) -> (r: u8)
        ensures
            r == match *self {
                RdrandMode::SeededRng => 0u8,
                RdrandMode::ExitToUserspace => 1u8,
            },
    {
        match self {
            RdrandMode::SeededRng => 0,
            RdrandMode::ExitToUserspace => 1,
        }
    }
}

/// One step of the xorshift64 generator (shifts 13, 7, 17).
pub open spec fn spec_xorshift64(x: u64) -> u64 {
    let a = x ^ (x << 13u64);
    let b = a ^ (a >> 7u64);
    b ^ (b << 17u64)
}

/// State of the random-bytes source.
#[derive(Clone, Copy)]
pub struct RandomState {
    /// Emulation mode.
    pub mode: RdrandMode,
    /// xorshift64 state for `SeededRng` mode.
    pub seed: u64,
    /// Whether a request awaits userspace-supplied bytes.
    pub awaiting: bool,
    /// GVA of the guest destination buffer of the in-flight request.
    pub buf_gva: u64,
    /// Bytes requested by the in-flight request.
    pub req_len: u32,
    /// PID of the process that issued the in-flight request.
    pub pid: u32,
    /// Reply bytes staged by userspace; the valid part is `reply[..reply_len]`.
    pub reply: [u8; 256],
    /// Number of valid bytes in `reply`.
    pub reply_len: u32,
    /// Whether `reply` has been staged for the in-flight request.
    pub reply_valid: bool,
}

/// The generator's initial seed.
pub const RANDOM_DEFAULT_SEED: u64 = 0x9e37_79b9_7f4a_7c15;

impl RandomState {
    /// No request is in flight.
    pub open spec fn request_cleared(self) -> bool {
        &&& !self.awaiting
        &&& self.buf_gva == 0
        &&& self.req_len == 0
        &&& self.pid == 0
        &&& self.reply_len == 0
        &&& !self.reply_valid
    }

    /// Initial state: seeded mode with the default seed, no request.
    pub fn new() -> (r: Self)
        ensures
            r.mode == RdrandMode::SeededRng,
            r.seed == RANDOM_DEFAULT_SEED,
            r.request_cleared(),
            forall|i: int| 0 <= i < 256 ==> r.reply@[i] == 0,
    {
        Self {
            mode: RdrandMode::SeededRng,
            seed: RANDOM_DEFAULT_SEED,
            awaiting: false,
            buf_gva: 0,
            req_len: 0,
            pid: 0,
            reply: [0u8; 256],
            reply_len: 0,
            reply_valid: false,
        }
    }

    /// Configure the mode and seed; a zero seed is replaced by 1 (xorshift
    /// must not start at 0). Clears any in-flight request.
    pub fn configure(&mut self, mode: RdrandMode, seed: u64)
        ensures
            final(self).mode == mode,
            final(self).seed == if seed == 0 {
                1
            } else {
                seed
            },
            final(self).request_cleared(),
            final(self).reply == old(self).reply,
    {
        self.mode = mode;
        self.seed = if seed == 0 {
            1
        } else {
            seed
        };
        self.clear_request();
    }

    /// Advance the xorshift64 generator and return the new state.
    pub fn next_seeded_u64(&mut self) -> (r: u64)
        ensures
            r == spec_xorshift64(old(self).seed),
            *final(self) == (RandomState { seed: r, ..*old(self) }),
    {
        let mut x = self.seed;
        x = x ^ (x << 13);
        x = x ^ (x >> 7);
        x = x ^ (x << 17);
        self.seed = x;
        x
    }

    /// Record the in-flight request before exiting to userspace; the
    /// requested length is capped at `RANDOM_REPLY_MAX`.
    pub fn begin_request(&mut self, buf_gva: u64, req_len: u32, pid: u32)
        ensures
            *final(self) == (RandomState {
                buf_gva,
                req_len: if req_len > RANDOM_REPLY_MAX {
                    RANDOM_REPLY_MAX as u32
                } else {
                    req_len
                },
                pid,
                awaiting: true,
                reply_valid: false,
                reply_len: 0,
                ..*old(self)
            }),
    {
        self.buf_gva = buf_gva;
        self.req_len = if req_len > RANDOM_REPLY_MAX as u32 {
            RANDOM_REPLY_MAX as u32
        } else {
            req_len
        };
        self.pid = pid;
        self.awaiting = true;
        self.reply_valid = false;
        self.reply_len = 0;
    }

    /// Stage userspace-supplied reply bytes; bytes beyond 256 are dropped.
    pub fn stage_reply(&mut self, bytes: &[u8])
        ensures
            final(self).reply_len == if bytes@.len() < RANDOM_REPLY_MAX {
                bytes@.len()
            } else {
                RANDOM_REPLY_MAX as nat
            },
            final(self).reply@ == bytes@.take(final(self).reply_len as int) + old(
                self,
            ).reply@.skip(final(self).reply_len as int),
            final(self).reply_valid,
            final(self).mode == old(self).mode,
            final(self).seed == old(self).seed,
            final(self).awaiting == old(self).awaiting,
            final(self).buf_gva == old(self).buf_gva,
            final(self).req_len == old(self).req_len,
            final(self).pid == old(self).pid,
    {
        let n = if bytes.len() < RANDOM_REPLY_MAX {
            bytes.len()
        } else {
            RANDOM_REPLY_MAX
        };
        let ghost old_reply = self.reply@;
        let mut i: usize = 0;
        while i < n
            invariant
                i <= n <= RANDOM_REPLY_MAX,
                n <= bytes@.len(),
                self.reply@.len() == 256,
                old_reply.len() == 256,
                self.reply@ == bytes@.take(i as int) + old_reply.skip(i as int),
                self.mode == old(self).mode,
                self.seed == old(self).seed,
                self.awaiting == old(self).awaiting,
                self.buf_gva == old(self).buf_gva,
                self.req_len == old(self).req_len,
                self.pid == old(self).pid,
            decreases n - i,
        {
            let ghost prev = self.reply@;
            self.reply[i] = bytes[i];
            assert(self.reply@ == prev.update(i as int, bytes@[i as int]));
            i += 1;
            assert(self.reply@ =~= bytes@.take(i as int) + old_reply.skip(i as int));
        }
        self.reply_len = n as u32;
        self.reply_valid = true;
    }

    /// Clear the in-flight request state.
    pub fn clear_request(&mut self)
        ensures
            final(self).request_cleared(),
            final(self).mode == old(self).mode,
            final(self).seed == old(self).seed,
            final(self).reply == old(self).reply,
    {
        self.awaiting = false;
        self.buf_gva = 0;
        self.req_len = 0;
        self.pid = 0;
        self.reply_len = 0;
        self.reply_valid = false;
    }

    /// Whether the handler must exit to userspace to obtain bytes.
    pub fn needs_userspace_exit(&self) -> (r: bool)
        ensures
            r == (self.mode == RdrandMode::ExitToUserspace && !self.reply_valid),
    {
        self.mode == RdrandMode::ExitToUserspace && !self.reply_valid
    }
}

/// The xorshift64 generator never reaches zero from a non-zero state, so a
/// configured generator (whose seed is never zero) keeps producing values.
pub proof fn lemma_xorshift64_nonzero(x: u64)
    requires
        x != 0,
    ensures
        spec_xorshift64(x) != 0,
{
    let a = x ^ (x << 13u64);
    let b = a ^ (a >> 7u64);
    assert(a != 0) by (bit_vector)
        requires
            x != 0,
            a == x ^ (x << 13u64),
    ;
    assert(b != 0) by (bit_vector)
        requires
            a != 0,
            b == a ^ (a >> 7u64),
    ;
    assert(b ^ (b << 17u64) != 0) by (bit_vector)
        requires
            b != 0,
    ;
}

impl StateHash for RandomState {
    fn state_hash(&self) -> (r: u64)
        ensures
            r == 0,
    {
        let mut h = Xxh64Hasher::new();
        h.write_u8(self.mode.code());
        h.write_u64(self.seed);
        h.finish()
    }
}

} // verus!
