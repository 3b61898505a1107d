//! Explicit model of the driver context that every operation of this crate
//! acts on: the current bindings, the enabled vertex-input slots, the sticky
//! error queue, and the log of driver calls issued so far.
//!
//! The real driver holds this state process-wide; modelling it as a value
//! makes the dependency visible at call sites and lets every operation state
//! exactly which driver call it issues and how the state changes.
use vstd::prelude::*;

use crate::errors::GlError;
use crate::uniforms::UniformShape;

verus! {

/// One call into the driver, with exactly the argument values handed over.
/// Payload pointers (vertex data, pixel data, uniform data) are carried by
/// the unverified driver shim, not recorded here; the log records the sizes,
/// formats and locations that describe them.
#[derive(Clone, Copy, PartialEq, Eq, Structural, Debug)]
pub enum Command {
    SetupShaderCompiler {
        opt_level: i32,
        use_fastmath: i32,
        use_fastprecision: i32,
        use_fastint: i32,
    },
    InitExtended {
        legacy_pool_size: i32,
        width: i32,
        height: i32,
        ram_threshold: i32,
        msaa: u32,
    },
    SwapBuffers { has_commondialog: u8 },
    BindBuffer { target: u32, buffer: u32 },
    BufferData { target: u32, byte_len: usize, usage: u32 },
    GenBuffers { count: usize },
    DeleteBuffers { count: usize },
    VertexAttribPointer {
        index: u32,
        size: i32,
        type_: u32,
        normalized: u8,
        stride: i32,
        offset: usize,
    },
    VertexAttribDivisor { index: u32, divisor: u32 },
    EnableVertexAttribArray { index: u32 },
    DisableVertexAttribArray { index: u32 },
    UseProgram { program: u32 },
    DrawArrays { mode: u32, first: i32, count: i32 },
    DrawElements { mode: u32, count: i32, type_: u32 },
    DrawElementsInstanced { mode: u32, count: i32, type_: u32, primcount: i32 },
    BindTexture { target: u32, texture: u32 },
    TexImage2D {
        target: u32,
        level: i32,
        internalformat: i32,
        width: i32,
        height: i32,
        format: u32,
        type_: u32,
    },
    GenerateMipmap { target: u32 },
    TexParameteri { target: u32, pname: u32, param: i32 },
    GenTextures { count: usize },
    DeleteTextures { count: usize },
    Uniform { location: i32, count: i32, shape: UniformShape, transpose: bool },
}

/// The driver-context model. All state the driver keeps on our behalf and
/// that this crate's contracts speak of lives here as plain values.
pub struct Context {
    /// Buffer currently bound to the vertex-array target (0 = none).
    pub bound_array_buffer: u32,
    /// Buffer currently bound to the index-array target (0 = none).
    pub bound_element_array_buffer: u32,
    /// Program currently in use (0 = none).
    pub current_program: u32,
    /// Vertex-input slots currently enabled. Membership is what matters;
    /// the vector may hold a slot more than once.
    pub enabled: Vec<u32>,
    /// The driver's sticky error queue, oldest first. Never holds the
    /// no-error sentinel.
    pub pending_errors: Vec<GlError>,
    /// Every driver call issued through this context, in order.
    pub commands: Vec<Command>,
    /// Next identifier the model driver hands out for a buffer.
    pub next_buffer_id: u32,
    /// Next identifier the model driver hands out for a texture.
    pub next_texture_id: u32,
}

impl Context {
    /// The queue never holds the no-error sentinel, and the model driver
    /// never hands out the reserved zero identifier.
    pub open spec fn wf(&self) -> bool {
        &&& forall|i: int|
            0 <= i < self.pending_errors@.len() ==> self.pending_errors@[i] != GlError::NoError
        &&& self.next_buffer_id >= 1
        &&& self.next_texture_id >= 1
    }

    /// `self`, with only the command log replaced.
    pub open spec fn with_commands(self, commands: Vec<Command>) -> Context {
        Context { commands, ..self }
    }

    /// Slot `loc` is currently enabled.
    pub open spec fn is_enabled(&self, loc: u32) -> bool {
        self.enabled@.contains(loc)
    }

    /// Record one driver call that touches no modelled state.
    pub(crate) fn submit(&mut self, cmd: Command)
        ensures
            *final(self) == old(self).with_commands(final(self).commands),
            final(self).commands@ == old(self).commands@.push(cmd),
    {
        self.commands.push(cmd);
    }

    /// Report an error the driver raised asynchronously. The queue is owned
    /// by the driver; this crate only observes it, and the shim around the
    /// driver feeds observed errors in through this method.
    pub fn record_error(&mut self, e: GlError)
        requires
            e != GlError::NoError,
        ensures
            *final(self) == (Context {
                pending_errors: final(self).pending_errors,
                ..*old(self)
            }),
            final(self).pending_errors@ == old(self).pending_errors@.push(e),
            old(self).wf() ==> final(self).wf(),
    {
        self.pending_errors.push(e);
    }
}

} // verus!
