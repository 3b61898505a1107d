//! The driver's sticky error queue: the error kinds, the single poll
//! transition, and a drain that pulls every pending error exactly once.
use vstd::prelude::*;

use crate::context::Context;

verus! {

pub const NO_ERROR: u32 = 0;
pub const INVALID_ENUM: u32 = 0x0500;
pub const INVALID_VALUE: u32 = 0x0501;
pub const INVALID_OPERATION: u32 = 0x0502;
pub const STACK_OVERFLOW: u32 = 0x0503;
pub const STACK_UNDERFLOW: u32 = 0x0504;
pub const OUT_OF_MEMORY: u32 = 0x0505;
pub const INVALID_FRAMEBUFFER_OPERATION: u32 = 0x0506;

/// One entry of the driver's error queue, or the no-error sentinel.
#[derive(Clone, Copy, PartialEq, Eq, Structural, Debug)]
pub enum GlError {
    NoError,
    InvalidEnum,
    InvalidValue,
    InvalidOperation,
    InvalidFramebufferOperation,
    OutOfMemory,
    StackUnderflow,
    StackOverflow,
}

impl GlError {
    /// The driver's numeric code for this error kind.
    pub open spec fn code_spec(self) -> u32 {
        match self {
            GlError::NoError => NO_ERROR,
            GlError::InvalidEnum => INVALID_ENUM,
            GlError::InvalidValue => INVALID_VALUE,
            GlError::InvalidOperation => INVALID_OPERATION,
            GlError::InvalidFramebufferOperation => INVALID_FRAMEBUFFER_OPERATION,
            GlError::OutOfMemory => OUT_OF_MEMORY,
            GlError::StackUnderflow => STACK_UNDERFLOW,
            GlError::StackOverflow => STACK_OVERFLOW,
        }
    }

    pub fn code(&self) -> (r: u32)
        ensures
            r == self.code_spec(),
    {
        match self {
            GlError::NoError => NO_ERROR,
            GlError::InvalidEnum => INVALID_ENUM,
            GlError::InvalidValue => INVALID_VALUE,
            GlError::InvalidOperation => INVALID_OPERATION,
            GlError::InvalidFramebufferOperation => INVALID_FRAMEBUFFER_OPERATION,
            GlError::OutOfMemory => OUT_OF_MEMORY,
            GlError::StackUnderflow => STACK_UNDERFLOW,
            GlError::StackOverflow => STACK_OVERFLOW,
        }
    }

    /// The error kind a driver code denotes, if any.
    pub open spec fn from_code_spec(code: u32) -> Option<GlError> {
        if code == NO_ERROR {
            Some(GlError::NoError)
        } else if code == INVALID_ENUM {
            Some(GlError::InvalidEnum)
        } else if code == INVALID_VALUE {
            Some(GlError::InvalidValue)
        } else if code == INVALID_OPERATION {
            Some(GlError::InvalidOperation)
        } else if code == INVALID_FRAMEBUFFER_OPERATION {
            Some(GlError::InvalidFramebufferOperation)
        } else if code == OUT_OF_MEMORY {
            Some(GlError::OutOfMemory)
        } else if code == STACK_UNDERFLOW {
            Some(GlError::StackUnderflow)
        } else if code == STACK_OVERFLOW {
            Some(GlError::StackOverflow)
        } else {
            None
        }
    }

    pub fn from_code(code: u32) -> (r: Option<GlError>)
        ensures
            r == Self::from_code_spec(code),
    {
        if code == NO_ERROR {
            Some(GlError::NoError)
        } else if code == INVALID_ENUM {
            Some(GlError::InvalidEnum)
        } else if code == INVALID_VALUE {
            Some(GlError::InvalidValue)
        } else if code == INVALID_OPERATION {
            Some(GlError::InvalidOperation)
        } else if code == INVALID_FRAMEBUFFER_OPERATION {
            Some(GlError::InvalidFramebufferOperation)
        } else if code == OUT_OF_MEMORY {
            Some(GlError::OutOfMemory)
        } else if code == STACK_UNDERFLOW {
            Some(GlError::StackUnderflow)
        } else if code == STACK_OVERFLOW {
            Some(GlError::StackOverflow)
        } else {
            None
        }
    }

    /// The fixed symbolic string for this error kind, exactly as existing
    /// tooling expects it in logs.
    pub open spec fn name_spec(self) -> Seq<char> {
        match self {
            GlError::NoError => "GL_NO_ERROR"@,
            GlError::InvalidEnum => "GL_INVALID_ENUM"@,
            GlError::InvalidValue => "GL_INVALID_VALUE"@,
            GlError::InvalidOperation => "GL_INVALID_OPERATION"@,
            GlError::InvalidFramebufferOperation => "GL_INVALID_FRAMEBUFFER_OPERATION"@,
            GlError::OutOfMemory => "GL_OUT_OF_MEMORY"@,
            GlError::StackUnderflow => "GL_STACK_UNDERFLOW"@,
            GlError::StackOverflow => "GL_STACK_OVERFLOW"@,
        }
    }

    pub fn name(&self) -> (r: &'static str)
        ensures
            r@ == self.name_spec(),
    {
        match self {
            GlError::NoError => "GL_NO_ERROR",
            GlError::InvalidEnum => "GL_INVALID_ENUM",
            GlError::InvalidValue => "GL_INVALID_VALUE",
            GlError::InvalidOperation => "GL_INVALID_OPERATION",
            GlError::InvalidFramebufferOperation => "GL_INVALID_FRAMEBUFFER_OPERATION",
            GlError::OutOfMemory => "GL_OUT_OF_MEMORY",
            GlError::StackUnderflow => "GL_STACK_UNDERFLOW",
            GlError::StackOverflow => "GL_STACK_OVERFLOW",
        }
    }
}

/// Distinct error kinds carry distinct driver codes, so decoding a code
/// recovers exactly the kind that produced it.
pub proof fn lemma_error_code_round_trip(e: GlError)
    ensures
        GlError::from_code_spec(e.code_spec()) == Some(e),
{
}

/// What one poll of the queue returns: its oldest entry, or the no-error
/// sentinel when it is empty.
pub open spec fn poll_next(q: Seq<GlError>) -> GlError {
    if q.len() == 0 {
        GlError::NoError
    } else {
        q[0]
    }
}

/// What one poll leaves in the queue.
pub open spec fn poll_rest(q: Seq<GlError>) -> Seq<GlError> {
    if q.len() == 0 {
        q
    } else {
        q.drop_first()
    }
}

/// What a full drain returns and what it leaves behind: every pending error
/// in order, and an empty queue.
pub open spec fn drain_spec(q: Seq<GlError>) -> (Seq<GlError>, Seq<GlError>) {
    (q, Seq::<GlError>::empty())
}

/// Poll the error queue once: dequeue and return the oldest pending error,
/// or return the no-error sentinel and leave the queue as it is.
pub fn get_error(ctx: &mut Context) -> (r: GlError)
    ensures
        r == poll_next(old(ctx).pending_errors@),
        *final(ctx) == (Context { pending_errors: final(ctx).pending_errors, ..*old(ctx) }),
        final(ctx).pending_errors@ == poll_rest(old(ctx).pending_errors@),
        old(ctx).wf() ==> final(ctx).wf(),
{
    if ctx.pending_errors.len() == 0 {
        GlError::NoError
    } else {
        let e = ctx.pending_errors.remove(0);
        proof {
            assert(old(ctx).pending_errors@.remove(0) =~= old(ctx).pending_errors@.drop_first());
        }
        e
    }
}

/// Pull-based view of the error queue: each pending error is yielded exactly
/// once, and the sequence ends when the queue reports empty.
pub struct Errors;

impl Errors {
    /// One step of the drain: the oldest pending error, or `None` once the
    /// queue is empty.
    pub fn next(ctx: &mut Context) -> (r: Option<GlError>)
        requires
            old(ctx).wf(),
        ensures
            final(ctx).wf(),
            *final(ctx) == (Context { pending_errors: final(ctx).pending_errors, ..*old(ctx) }),
            final(ctx).pending_errors@ == poll_rest(old(ctx).pending_errors@),
            r == if old(ctx).pending_errors@.len() == 0 {
                Option::<GlError>::None
            } else {
                Option::<GlError>::Some(old(ctx).pending_errors@[0])
            },
    {
        let e = get_error(ctx);
        if e == GlError::NoError {
            None
        } else {
            Some(e)
        }
    }

    /// Drain the queue to completion: every pending error, oldest first,
    /// leaving the queue empty.
    pub fn drain(ctx: &mut Context) -> (r: Vec<GlError>)
        requires
            old(ctx).wf(),
        ensures
            final(ctx).wf(),
            *final(ctx) == (Context { pending_errors: final(ctx).pending_errors, ..*old(ctx) }),
            r@ == drain_spec(old(ctx).pending_errors@).0,
            final(ctx).pending_errors@ == drain_spec(old(ctx).pending_errors@).1,
    {
        let mut out: Vec<GlError> = Vec::new();
        loop
            invariant
                ctx.wf(),
                out@ + ctx.pending_errors@ == old(ctx).pending_errors@,
                *ctx == (Context { pending_errors: ctx.pending_errors, ..*old(ctx) }),
            ensures
                ctx.wf(),
                out@ == old(ctx).pending_errors@,
                ctx.pending_errors@.len() == 0,
                *ctx == (Context { pending_errors: ctx.pending_errors, ..*old(ctx) }),
            decreases ctx.pending_errors@.len(),
        {
            match Self::next(ctx) {
                Some(e) => {
                    out.push(e);
                    proof {
                        assert(out@ + ctx.pending_errors@ =~= old(ctx).pending_errors@);
                    }
                },
                None => {
                    proof {
                        assert(out@ =~= old(ctx).pending_errors@);
                    }
                    break;
                },
            }
        }
        out
    }
}

/// Draining is exhaustive and idempotent after the first pass: a drain
/// leaves nothing behind, and a second drain with no intervening driver
/// call yields the empty sequence.
pub proof fn lemma_drain_exhaustive_idempotent(q: Seq<GlError>)
    ensures
        drain_spec(q).0 == q,
        drain_spec(q).1 =~= Seq::<GlError>::empty(),
        drain_spec(drain_spec(q).1).0 =~= Seq::<GlError>::empty(),
{
}

/// A queue left empty polls as the no-error sentinel: an operation whose
/// contract keeps the queue unchanged raises no spurious error.
pub proof fn lemma_empty_queue_polls_no_error(pre: Context, post: Context)
    requires
        post.pending_errors@ == pre.pending_errors@,
        pre.pending_errors@.len() == 0,
    ensures
        poll_next(post.pending_errors@) == GlError::NoError,
{
}

} // verus!
