//! Buffer handles: typed wrappers for driver-issued buffer identifiers,
//! batched generate/delete, data upload and attribute binding.
use vstd::prelude::*;

use vstd::pervasive::VecAdditionalExecFns;

use crate::attribute::{Attribute, AttributeFormat};
use crate::context::{Command, Context};

verus! {

pub const ARRAY_BUFFER: u32 = 0x8892;
pub const ELEMENT_ARRAY_BUFFER: u32 = 0x8893;
pub const STREAM_DRAW: u32 = 0x88E0;
pub const STATIC_DRAW: u32 = 0x88E4;
pub const DYNAMIC_DRAW: u32 = 0x88E8;

/// A buffer identifier issued by the driver. The zero handle denotes "no
/// buffer" and is never a live resource.
#[derive(Clone, Copy, PartialEq, Eq, Structural, Debug)]
pub struct Buffer(pub u32);

impl Default for Buffer {
    /// The zero handle: nothing bound.
    fn default() -> (r: Self)
        ensures
            r.0 == 0,
    {
        Buffer(0)
    }
}

impl Buffer {
    /// How binding a buffer to a target changes the context: the binding for
    /// that target (and only that target) now holds the buffer's identifier.
    pub open spec fn bind_post(pre: Context, post: Context, target: u32, id: u32) -> bool {
        post == (Context {
            bound_array_buffer: if target == ARRAY_BUFFER {
                id
            } else {
                pre.bound_array_buffer
            },
            bound_element_array_buffer: if target == ELEMENT_ARRAY_BUFFER {
                id
            } else {
                pre.bound_element_array_buffer
            },
            commands: post.commands,
            ..pre
        })
    }

    /// Make this buffer the one bound to `target`.
    pub fn bind(&self, ctx: &mut Context, target: u32) -> (b: BoundBuffer)
        ensures
            Self::bind_post(*old(ctx), *final(ctx), target, self.0),
            final(ctx).commands@ == old(ctx).commands@.push(
                Command::BindBuffer { target, buffer: self.0 },
            ),
            b.target_spec() == target,
    {
        if target == ARRAY_BUFFER {
            ctx.bound_array_buffer = self.0;
        }
        if target == ELEMENT_ARRAY_BUFFER {
            ctx.bound_element_array_buffer = self.0;
        }
        ctx.submit(Command::BindBuffer { target, buffer: self.0 });
        BoundBuffer { target }
    }

    /// Bind to `target`, then hand the driver `len` elements of `elem_size`
    /// bytes each — a byte-for-byte copy sized `elem_size * len` — with the
    /// given usage hint. The element bytes themselves travel through the
    /// driver shim.
    pub fn data(&self, ctx: &mut Context, target: u32, elem_size: usize, len: usize, usage: u32)
        requires
            elem_size * len <= usize::MAX,
        ensures
            Self::bind_post(*old(ctx), *final(ctx), target, self.0),
            final(ctx).commands@ == old(ctx).commands@.push(
                Command::BindBuffer { target, buffer: self.0 },
            ).push(
                Command::BufferData { target, byte_len: (elem_size * len) as usize, usage },
            ),
    {
        let b = self.bind(ctx, target);
        b.data(ctx, elem_size, len, usage);
    }

    /// Bind to the vertex-array target and describe how this buffer feeds
    /// `attribute`: one call that combines bind and pointer set-up.
    pub fn bind_to(
        &self,
        ctx: &mut Context,
        attribute: Attribute,
        format: AttributeFormat,
        stride: i32,
        offset: usize,
    )
        ensures
            Self::bind_post(*old(ctx), *final(ctx), ARRAY_BUFFER, self.0),
            final(ctx).commands@ == old(ctx).commands@.push(
                Command::BindBuffer { target: ARRAY_BUFFER, buffer: self.0 },
            ).push(
                Command::VertexAttribPointer {
                    index: attribute.0,
                    size: format.size.count_spec(),
                    type_: format.type_.code_spec(),
                    normalized: format.normalized_flag_spec(),
                    stride,
                    offset,
                },
            ),
    {
        let b = self.bind(ctx, ARRAY_BUFFER);
        b.bind_to(ctx, attribute, format, stride, offset);
    }
}

/// Witness that some buffer was bound to `target`; operations on it act on
/// the driver's current binding for that target.
pub struct BoundBuffer {
    target: u32,
}

impl BoundBuffer {
    pub closed spec fn target_spec(&self) -> u32 {
        self.target
    }

    pub fn target(&self) -> (r: u32)
        ensures
            r == self.target_spec(),
    {
        self.target
    }

    /// Hand the driver `len` elements of `elem_size` bytes each for the
    /// bound target: a copy sized `elem_size * len`, with a usage hint.
    pub fn data(&self, ctx: &mut Context, elem_size: usize, len: usize, usage: u32)
        requires
            elem_size * len <= usize::MAX,
        ensures
            *final(ctx) == old(ctx).with_commands(final(ctx).commands),
            final(ctx).commands@ == old(ctx).commands@.push(
                Command::BufferData {
                    target: self.target_spec(),
                    byte_len: (elem_size * len) as usize,
                    usage,
                },
            ),
    {
        let n_bytes = elem_size * len;
        ctx.submit(Command::BufferData { target: self.target, byte_len: n_bytes, usage });
    }

    /// Describe how the buffer bound to the vertex-array target feeds
    /// `attribute`, starting `offset` bytes in with the given stride.
    pub fn bind_to(
        &self,
        ctx: &mut Context,
        attribute: Attribute,
        format: AttributeFormat,
        stride: i32,
        offset: usize,
    )
        ensures
            *final(ctx) == old(ctx).with_commands(final(ctx).commands),
            final(ctx).commands@ == old(ctx).commands@.push(
                Command::VertexAttribPointer {
                    index: attribute.0,
                    size: format.size.count_spec(),
                    type_: format.type_.code_spec(),
                    normalized: format.normalized_flag_spec(),
                    stride,
                    offset,
                },
            ),
    {
        attribute.pointer(ctx, format, stride, offset);
    }
}

/// Fill every slot of `buffers` with a freshly generated buffer identifier:
/// one batched driver call for the whole collection. Every identifier handed
/// out is non-zero and distinct from the others.
pub fn gen_buffers(ctx: &mut Context, buffers: &mut Vec<Buffer>)
    requires
        old(ctx).wf(),
        old(ctx).next_buffer_id + old(buffers)@.len() <= u32::MAX,
    ensures
        final(ctx).wf(),
        *final(ctx) == (Context {
            commands: final(ctx).commands,
            next_buffer_id: (old(ctx).next_buffer_id + old(buffers)@.len()) as u32,
            ..*old(ctx)
        }),
        final(ctx).commands@ == old(ctx).commands@.push(
            Command::GenBuffers { count: old(buffers)@.len() as usize },
        ),
        final(buffers)@.len() == old(buffers)@.len(),
        forall|i: int|
            0 <= i < old(buffers)@.len() ==> (#[trigger] final(buffers)@[i]).0 == old(
                ctx,
            ).next_buffer_id + i,
        forall|i: int| 0 <= i < old(buffers)@.len() ==> (#[trigger] final(buffers)@[i]).0 != 0,
{
    let n = buffers.len();
    let mut i: usize = 0;
    while i < n
        invariant
            i <= n,
            n == buffers@.len(),
            *ctx == *old(ctx),
            ctx.wf(),
            ctx.next_buffer_id + n <= u32::MAX,
            forall|j: int|
                0 <= j < i ==> (#[trigger] buffers@[j]).0 == ctx.next_buffer_id + j,
        decreases n - i,
    {
        let id = ctx.next_buffer_id + (i as u32);
        buffers.set(i, Buffer(id));
        i = i + 1;
    }
    ctx.next_buffer_id = ctx.next_buffer_id + (n as u32);
    ctx.submit(Command::GenBuffers { count: n });
}

/// Release every buffer in `buffers` in one batched driver call and mark
/// each slot with the zero handle, no longer valid for use.
pub fn del_buffers(ctx: &mut Context, buffers: &mut Vec<Buffer>)
    ensures
        *final(ctx) == old(ctx).with_commands(final(ctx).commands),
        final(ctx).commands@ == old(ctx).commands@.push(
            Command::DeleteBuffers { count: old(buffers)@.len() as usize },
        ),
        final(buffers)@.len() == old(buffers)@.len(),
        forall|i: int| 0 <= i < old(buffers)@.len() ==> (#[trigger] final(buffers)@[i]).0 == 0,
{
    let n = buffers.len();
    let mut i: usize = 0;
    while i < n
        invariant
            i <= n,
            n == buffers@.len(),
            *ctx == *old(ctx),
            forall|j: int| 0 <= j < i ==> (#[trigger] buffers@[j]).0 == 0,
        decreases n - i,
    {
        buffers.set(i, Buffer(0));
        i = i + 1;
    }
    ctx.submit(Command::DeleteBuffers { count: n });
}

} // verus!
