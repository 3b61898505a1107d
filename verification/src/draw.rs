//! Draw submission: primitive topologies, plain array draws, and indexed
//! draws polymorphic over where the indices live — an inline CPU-side array
//! or a GPU-resident index buffer, with 16- or 32-bit indices.
use vstd::prelude::*;

use crate::buffer::{Buffer, ELEMENT_ARRAY_BUFFER};
use crate::context::{Command, Context};
use crate::errors::{poll_next, GlError};

verus! {

pub const POINTS: u32 = 0x0000;
pub const LINES: u32 = 0x0001;
pub const TRIANGLES: u32 = 0x0004;
pub const QUADS: u32 = 0x0007;

pub const UNSIGNED_SHORT: u32 = 0x1403;
pub const UNSIGNED_INT: u32 = 0x1405;

/// The primitive topology a draw interprets its vertices with.
#[derive(Clone, Copy, PartialEq, Eq, Structural, Debug)]
pub enum Mode {
    Points,
    Lines,
    Triangles,
    Quads,
}

impl Mode {
    /// The driver's code for this topology.
    pub open spec fn code_spec(self) -> u32 {
        match self {
            Mode::Points => POINTS,
            Mode::Lines => LINES,
            Mode::Triangles => TRIANGLES,
            Mode::Quads => QUADS,
        }
    }

    pub fn code(&self) -> (r: u32)
        ensures
            r == self.code_spec(),
    {
        match self {
            Mode::Points => POINTS,
            Mode::Lines => LINES,
            Mode::Triangles => TRIANGLES,
            Mode::Quads => QUADS,
        }
    }
}

/// Draw `count` consecutive vertices starting at `first` from the bound
/// vertex buffers, without indices.
pub fn draw_arrays(ctx: &mut Context, mode: Mode, first: i32, count: i32)
    ensures
        *final(ctx) == old(ctx).with_commands(final(ctx).commands),
        final(ctx).commands@ == old(ctx).commands@.push(
            Command::DrawArrays { mode: mode.code_spec(), first, count },
        ),
{
    ctx.submit(Command::DrawArrays { mode: mode.code(), first, count });
}

/// The parameters an element source contributes to an indexed draw: how
/// many indices, and the driver code of their scalar type.
pub struct ElementParams {
    pub count: i32,
    pub type_: u32,
}

/// An index source for element draws. Establishing the source binds the
/// index-array target — the real buffer handle for GPU-resident indices, or
/// the zero handle for inline arrays, which forces the driver into CPU-side
/// addressing. The index bytes of inline arrays travel through the driver
/// shim; the log records the binding, count and index type.
pub trait Elements {
    /// How many indices a draw from this source uses.
    spec fn count_spec(&self) -> int;

    /// The driver code of the index scalar type.
    spec fn type_spec(&self) -> u32;

    /// The buffer bound to the index-array target while drawing: the
    /// source's handle, or 0 for inline arrays.
    spec fn source_buffer_spec(&self) -> u32;

    /// Bind this source as the current index source and hand back the draw
    /// parameters it contributes.
    fn use_me(&self, ctx: &mut Context) -> (p: ElementParams)
        requires
            0 <= self.count_spec() <= i32::MAX as int,
        ensures
            p.count as int == self.count_spec(),
            p.type_ == self.type_spec(),
            *final(ctx) == (Context {
                bound_element_array_buffer: self.source_buffer_spec(),
                commands: final(ctx).commands,
                ..*old(ctx)
            }),
            final(ctx).commands@ == old(ctx).commands@.push(
                Command::BindBuffer {
                    target: ELEMENT_ARRAY_BUFFER,
                    buffer: self.source_buffer_spec(),
                },
            ),
    ;

    /// Establish the index source, then issue exactly one plain (non-
    /// instanced) indexed draw with this source's count and index type.
    fn draw(&self, ctx: &mut Context, mode: Mode)
        requires
            0 <= self.count_spec() <= i32::MAX as int,
        ensures
            *final(ctx) == (Context {
                bound_element_array_buffer: self.source_buffer_spec(),
                commands: final(ctx).commands,
                ..*old(ctx)
            }),
            final(ctx).commands@ == old(ctx).commands@.push(
                Command::BindBuffer {
                    target: ELEMENT_ARRAY_BUFFER,
                    buffer: self.source_buffer_spec(),
                },
            ).push(
                Command::DrawElements {
                    mode: mode.code_spec(),
                    count: self.count_spec() as i32,
                    type_: self.type_spec(),
                },
            ),
            final(ctx).pending_errors@ == old(ctx).pending_errors@,
            old(ctx).pending_errors@.len() == 0 ==> poll_next(final(ctx).pending_errors@)
                == GlError::NoError,
    {
        let params = self.use_me(ctx);
        ctx.submit(Command::DrawElements {
            mode: mode.code(),
            count: params.count,
            type_: params.type_,
        });
    }

    /// Establish the index source, then issue exactly one instanced indexed
    /// draw repeating the primitives `primcount` times.
    fn draw_instanced(&self, ctx: &mut Context, mode: Mode, primcount: i32)
        requires
            0 <= self.count_spec() <= i32::MAX as int,
        ensures
            *final(ctx) == (Context {
                bound_element_array_buffer: self.source_buffer_spec(),
                commands: final(ctx).commands,
                ..*old(ctx)
            }),
            final(ctx).commands@ == old(ctx).commands@.push(
                Command::BindBuffer {
                    target: ELEMENT_ARRAY_BUFFER,
                    buffer: self.source_buffer_spec(),
                },
            ).push(
                Command::DrawElementsInstanced {
                    mode: mode.code_spec(),
                    count: self.count_spec() as i32,
                    type_: self.type_spec(),
                    primcount,
                },
            ),
            final(ctx).pending_errors@ == old(ctx).pending_errors@,
            old(ctx).pending_errors@.len() == 0 ==> poll_next(final(ctx).pending_errors@)
                == GlError::NoError,
    {
        let params = self.use_me(ctx);
        ctx.submit(Command::DrawElementsInstanced {
            mode: mode.code(),
            count: params.count,
            type_: params.type_,
            primcount,
        });
    }
}

/// An inline CPU-side index array of 16-bit indices.
pub struct ElementsU16<'a> {
    pub indices: &'a [u16],
}

impl<'a> Elements for ElementsU16<'a> {
    open spec fn count_spec(&self) -> int {
        self.indices@.len() as int
    }

    open spec fn type_spec(&self) -> u32 {
        UNSIGNED_SHORT
    }

    open spec fn source_buffer_spec(&self) -> u32 {
        0
    }

    fn use_me(&self, ctx: &mut Context) -> (p: ElementParams) {
        Buffer::default().bind(ctx, ELEMENT_ARRAY_BUFFER);
        ElementParams { count: self.indices.len() as i32, type_: UNSIGNED_SHORT }
    }
}

/// An inline CPU-side index array of 32-bit indices.
pub struct ElementsU32<'a> {
    pub indices: &'a [u32],
}

impl<'a> Elements for ElementsU32<'a> {
    open spec fn count_spec(&self) -> int {
        self.indices@.len() as int
    }

    open spec fn type_spec(&self) -> u32 {
        UNSIGNED_INT
    }

    open spec fn source_buffer_spec(&self) -> u32 {
        0
    }

    fn use_me(&self, ctx: &mut Context) -> (p: ElementParams) {
        Buffer::default().bind(ctx, ELEMENT_ARRAY_BUFFER);
        ElementParams { count: self.indices.len() as i32, type_: UNSIGNED_INT }
    }
}

/// A GPU-resident index buffer of 16-bit indices, with its element count.
pub struct ElementsBufU16 {
    pub indices: Buffer,
    pub len: u32,
}

impl Elements for ElementsBufU16 {
    open spec fn count_spec(&self) -> int {
        self.len as int
    }

    open spec fn type_spec(&self) -> u32 {
        UNSIGNED_SHORT
    }

    open spec fn source_buffer_spec(&self) -> u32 {
        self.indices.0
    }

    fn use_me(&self, ctx: &mut Context) -> (p: ElementParams) {
        self.indices.bind(ctx, ELEMENT_ARRAY_BUFFER);
        ElementParams { count: self.len as i32, type_: UNSIGNED_SHORT }
    }
}

/// A GPU-resident index buffer of 32-bit indices, with its element count.
pub struct ElementsBufU32 {
    pub indices: Buffer,
    pub len: u32,
}

impl Elements for ElementsBufU32 {
    open spec fn count_spec(&self) -> int {
        self.len as int
    }

    open spec fn type_spec(&self) -> u32 {
        UNSIGNED_INT
    }

    open spec fn source_buffer_spec(&self) -> u32 {
        self.indices.0
    }

    fn use_me(&self, ctx: &mut Context) -> (p: ElementParams) {
        self.indices.bind(ctx, ELEMENT_ARRAY_BUFFER);
        ElementParams { count: self.len as i32, type_: UNSIGNED_INT }
    }
}

} // verus!
