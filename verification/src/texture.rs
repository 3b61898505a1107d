//! Texture handles: typed wrappers for driver-issued texture identifiers,
//! batched generate/delete, image upload and sampler parameters.
use vstd::prelude::*;

use vstd::pervasive::VecAdditionalExecFns;

use crate::context::{Command, Context};

verus! {

pub const TEXTURE_2D: u32 = 0x0DE1;

/// A texture identifier issued by the driver. The zero handle denotes "no
/// texture" and is never a live resource.
#[derive(Clone, Copy, PartialEq, Eq, Structural, Debug)]
pub struct Texture(pub u32);

impl Default for Texture {
    /// The zero handle: nothing bound.
    fn default() -> (r: Self)
        ensures
            r.0 == 0,
    {
        Texture(0)
    }
}

impl Texture {
    /// Make this texture the one bound to `bindpoint`.
    pub fn bind(&self, ctx: &mut Context, bindpoint: u32) -> (b: BoundTexture)
        ensures
            *final(ctx) == old(ctx).with_commands(final(ctx).commands),
            final(ctx).commands@ == old(ctx).commands@.push(
                Command::BindTexture { target: bindpoint, texture: self.0 },
            ),
            b.target_spec() == bindpoint,
    {
        ctx.submit(Command::BindTexture { target: bindpoint, texture: self.0 });
        BoundTexture { target: bindpoint }
    }
}

/// Witness that some texture was bound to `target`; operations on it act on
/// the driver's current binding for that target.
pub struct BoundTexture {
    target: u32,
}

impl BoundTexture {
    pub closed spec fn target_spec(&self) -> u32 {
        self.target
    }

    pub fn target(&self) -> (r: u32)
        ensures
            r == self.target_spec(),
    {
        self.target
    }

    /// Describe and upload one mip level of the bound texture: dimensions,
    /// internal format, and the format and scalar type of the pixel data.
    /// The pixel bytes themselves travel through the driver shim; the border
    /// argument the driver requires to be zero is fixed at zero.
    pub fn image_2d(
        &self,
        ctx: &mut Context,
        level: i32,
        internalformat: i32,
        width: i32,
        height: i32,
        format: u32,
        type_: u32,
    )
        ensures
            *final(ctx) == old(ctx).with_commands(final(ctx).commands),
            final(ctx).commands@ == old(ctx).commands@.push(
                Command::TexImage2D {
                    target: self.target_spec(),
                    level,
                    internalformat,
                    width,
                    height,
                    format,
                    type_,
                },
            ),
    {
        ctx.submit(Command::TexImage2D {
            target: self.target,
            level,
            internalformat,
            width,
            height,
            format,
            type_,
        });
    }

    /// Have the driver derive the full mip chain for the bound texture.
    pub fn gen_mipmap(&self, ctx: &mut Context)
        ensures
            *final(ctx) == old(ctx).with_commands(final(ctx).commands),
            final(ctx).commands@ == old(ctx).commands@.push(
                Command::GenerateMipmap { target: self.target_spec() },
            ),
    {
        ctx.submit(Command::GenerateMipmap { target: self.target });
    }

    /// Set one integer sampler parameter of the bound texture.
    pub fn parameter_i(&self, ctx: &mut Context, pname: u32, param: i32)
        ensures
            *final(ctx) == old(ctx).with_commands(final(ctx).commands),
            final(ctx).commands@ == old(ctx).commands@.push(
                Command::TexParameteri { target: self.target_spec(), pname, param },
            ),
    {
        ctx.submit(Command::TexParameteri { target: self.target, pname, param });
    }
}

/// Fill every slot of `textures` with a freshly generated texture
/// identifier: one batched driver call for the whole collection. Every
/// identifier handed out is non-zero and distinct from the others.
pub fn gen_textures(ctx: &mut Context, textures: &mut Vec<Texture>)
    requires
        old(ctx).wf(),
        old(ctx).next_texture_id + old(textures)@.len() <= u32::MAX,
    ensures
        final(ctx).wf(),
        *final(ctx) == (Context {
            commands: final(ctx).commands,
            next_texture_id: (old(ctx).next_texture_id + old(textures)@.len()) as u32,
            ..*old(ctx)
        }),
        final(ctx).commands@ == old(ctx).commands@.push(
            Command::GenTextures { count: old(textures)@.len() as usize },
        ),
        final(textures)@.len() == old(textures)@.len(),
        forall|i: int|
            0 <= i < old(textures)@.len() ==> (#[trigger] final(textures)@[i]).0 == old(
                ctx,
            ).next_texture_id + i,
        forall|i: int| 0 <= i < old(textures)@.len() ==> (#[trigger] final(textures)@[i]).0 != 0,
{
    let n = textures.len();
    let mut i: usize = 0;
    while i < n
        invariant
            i <= n,
            n == textures@.len(),
            *ctx == *old(ctx),
            ctx.wf(),
            ctx.next_texture_id + n <= u32::MAX,
            forall|j: int|
                0 <= j < i ==> (#[trigger] textures@[j]).0 == ctx.next_texture_id + j,
        decreases n - i,
    {
        let id = ctx.next_texture_id + (i as u32);
        textures.set(i, Texture(id));
        i = i + 1;
    }
    ctx.next_texture_id = ctx.next_texture_id + (n as u32);
    ctx.submit(Command::GenTextures { count: n });
}

/// Release every texture in `textures` in one batched driver call and mark
/// each slot with the zero handle, no longer valid for use.
pub fn delete_textures(ctx: &mut Context, textures: &mut Vec<Texture>)
    ensures
        *final(ctx) == old(ctx).with_commands(final(ctx).commands),
        final(ctx).commands@ == old(ctx).commands@.push(
            Command::DeleteTextures { count: old(textures)@.len() as usize },
        ),
        final(textures)@.len() == old(textures)@.len(),
        forall|i: int| 0 <= i < old(textures)@.len() ==> (#[trigger] final(textures)@[i]).0 == 0,
{
    let n = textures.len();
    let mut i: usize = 0;
    while i < n
        invariant
            i <= n,
            n == textures@.len(),
            *ctx == *old(ctx),
            forall|j: int| 0 <= j < i ==> (#[trigger] textures@[j]).0 == 0,
        decreases n - i,
    {
        textures.set(i, Texture(0));
        i = i + 1;
    }
    ctx.submit(Command::DeleteTextures { count: n });
}

} // verus!
