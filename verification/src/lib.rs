//! Typed convenience layer over an immediate-mode graphics driver.
//!
//! Raw driver calls — buffer creation, vertex-attribute binding, uniform
//! upload, draw submission — are wrapped in small typed handles so that call
//! sites cannot pass the wrong kind of identifier or forget required state.
//! Every operation acts on an explicit [`context::Context`]: a model of the
//! driver's process-wide state (bindings, enabled vertex inputs, the sticky
//! error queue) together with a log of the driver calls issued. The
//! unverified shim that owns the real driver replays that log; the contracts
//! here pin down exactly which call each operation issues and with which
//! argument values.
use vstd::prelude::*;

pub mod attribute;
pub mod buffer;
pub mod context;
pub mod draw;
pub mod errors;
pub mod program;
pub mod texture;
pub mod uniforms;

use crate::context::{Command, Context};
use crate::errors::GlError;

verus! {

/// Options handed to the driver's runtime shader compiler at bring-up.
#[derive(Clone, Copy, PartialEq, Eq, Structural, Debug)]
pub struct RuntimeShaderCompilerSettings {
    pub opt_level: i32,
    pub use_fastmath: i32,
    pub use_fastprecision: i32,
    pub use_fastint: i32,
}

impl Default for RuntimeShaderCompilerSettings {
    /// Moderate optimisation, fast math and fast integers on, fast
    /// precision off.
    fn default() -> (r: Self)
        ensures
            r == (RuntimeShaderCompilerSettings {
                opt_level: 2,
                use_fastmath: 1,
                use_fastprecision: 0,
                use_fastint: 1,
            }),
    {
        RuntimeShaderCompilerSettings {
            opt_level: 2,
            use_fastmath: 1,
            use_fastprecision: 0,
            use_fastint: 1,
        }
    }
}

/// Memory-pool and multisampling options for driver initialisation.
#[derive(Clone, Copy, PartialEq, Eq, Structural, Debug)]
pub struct VglInitSettings {
    pub legacy_pool_size: i32,
    pub ram_threshold: i32,
    pub msaa: u32,
}

pub const DEFAULT_RAM_THRESHOLD: i32 = 65 * 1024 * 1024;

impl Default for VglInitSettings {
    /// No legacy pool, a 65 MiB RAM threshold, multisampling off.
    fn default() -> (r: Self)
        ensures
            r == (VglInitSettings {
                legacy_pool_size: 0,
                ram_threshold: DEFAULT_RAM_THRESHOLD,
                msaa: 0,
            }),
    {
        VglInitSettings { legacy_pool_size: 0, ram_threshold: DEFAULT_RAM_THRESHOLD, msaa: 0 }
    }
}

/// The target's fixed display width.
pub const DISPLAY_WIDTH: i32 = 960;

/// The target's fixed display height.
pub const DISPLAY_HEIGHT: i32 = 544;

/// One-shot driver bring-up: configure the runtime shader compiler, then
/// initialise the driver for the fixed display dimensions. Returns the fresh
/// context every later operation acts on: nothing bound, no slot enabled, no
/// error pending, and exactly the two bring-up calls logged.
pub fn initialise_extended(rscs: RuntimeShaderCompilerSettings, vis: VglInitSettings) -> (ctx:
    Context)
    ensures
        ctx.wf(),
        ctx.bound_array_buffer == 0,
        ctx.bound_element_array_buffer == 0,
        ctx.current_program == 0,
        ctx.enabled@ == Seq::<u32>::empty(),
        ctx.pending_errors@ == Seq::<GlError>::empty(),
        ctx.commands@ == seq![
            Command::SetupShaderCompiler {
                opt_level: rscs.opt_level,
                use_fastmath: rscs.use_fastmath,
                use_fastprecision: rscs.use_fastprecision,
                use_fastint: rscs.use_fastint,
            },
            Command::InitExtended {
                legacy_pool_size: vis.legacy_pool_size,
                width: DISPLAY_WIDTH,
                height: DISPLAY_HEIGHT,
                ram_threshold: vis.ram_threshold,
                msaa: vis.msaa,
            },
        ],
{
    let mut ctx = Context {
        bound_array_buffer: 0,
        bound_element_array_buffer: 0,
        current_program: 0,
        enabled: Vec::new(),
        pending_errors: Vec::new(),
        commands: Vec::new(),
        next_buffer_id: 1,
        next_texture_id: 1,
    };
    ctx.commands.push(Command::SetupShaderCompiler {
        opt_level: rscs.opt_level,
        use_fastmath: rscs.use_fastmath,
        use_fastprecision: rscs.use_fastprecision,
        use_fastint: rscs.use_fastint,
    });
    ctx.commands.push(Command::InitExtended {
        legacy_pool_size: vis.legacy_pool_size,
        width: DISPLAY_WIDTH,
        height: DISPLAY_HEIGHT,
        ram_threshold: vis.ram_threshold,
        msaa: vis.msaa,
    });
    proof {
        assert(ctx.commands@ =~= seq![
            Command::SetupShaderCompiler {
                opt_level: rscs.opt_level,
                use_fastmath: rscs.use_fastmath,
                use_fastprecision: rscs.use_fastprecision,
                use_fastint: rscs.use_fastint,
            },
            Command::InitExtended {
                legacy_pool_size: vis.legacy_pool_size,
                width: DISPLAY_WIDTH,
                height: DISPLAY_HEIGHT,
                ram_threshold: vis.ram_threshold,
                msaa: vis.msaa,
            },
        ]);
    }
    ctx
}

/// Driver bring-up with the default compiler and initialisation settings.
pub fn initialise_default() -> (ctx: Context)
    ensures
        ctx.wf(),
        ctx.bound_array_buffer == 0,
        ctx.bound_element_array_buffer == 0,
        ctx.current_program == 0,
        ctx.enabled@ == Seq::<u32>::empty(),
        ctx.pending_errors@ == Seq::<GlError>::empty(),
        ctx.commands@ == seq![
            Command::SetupShaderCompiler {
                opt_level: 2,
                use_fastmath: 1,
                use_fastprecision: 0,
                use_fastint: 1,
            },
            Command::InitExtended {
                legacy_pool_size: 0,
                width: DISPLAY_WIDTH,
                height: DISPLAY_HEIGHT,
                ram_threshold: DEFAULT_RAM_THRESHOLD,
                msaa: 0,
            },
        ],
{
    initialise_extended(Default::default(), Default::default())
}

/// Present the frame: one swap call, with the system-dialog overlay flag
/// clear. The driver may block until the display is ready; the state of the
/// context is untouched beyond the logged call.
pub fn swap_buffers(ctx: &mut Context)
    ensures
        *final(ctx) == old(ctx).with_commands(final(ctx).commands),
        final(ctx).commands@ == old(ctx).commands@.push(
            Command::SwapBuffers { has_commondialog: 0 },
        ),
{
    ctx.submit(Command::SwapBuffers { has_commondialog: 0 });
}

} // verus!
