use vita_gl_helpers::attribute::{Attribute, AttributeTable};
use vita_gl_helpers::buffer::{del_buffers, gen_buffers, Buffer, ARRAY_BUFFER, DYNAMIC_DRAW};
use vita_gl_helpers::context::Command;
use vita_gl_helpers::program::Program;
use vita_gl_helpers::texture::{delete_textures, gen_textures, Texture, TEXTURE_2D};
use vita_gl_helpers::uniforms::{Uniform, UniformShape};
use vita_gl_helpers::{
    initialise_default, initialise_extended, swap_buffers, RuntimeShaderCompilerSettings,
    VglInitSettings,
};

#[test]
fn initialise_default_logs_documented_settings() {
    let ctx = initialise_default();
    assert_eq!(ctx.commands.len(), 2);
    assert_eq!(
        ctx.commands[0],
        Command::SetupShaderCompiler {
            opt_level: 2,
            use_fastmath: 1,
            use_fastprecision: 0,
            use_fastint: 1,
        }
    );
    assert_eq!(
        ctx.commands[1],
        Command::InitExtended {
            legacy_pool_size: 0,
            width: 960,
            height: 544,
            ram_threshold: 65 * 1024 * 1024,
            msaa: 0,
        }
    );
    assert!(ctx.enabled.is_empty());
    assert!(ctx.pending_errors.is_empty());
    assert_eq!(ctx.bound_array_buffer, 0);
    assert_eq!(ctx.bound_element_array_buffer, 0);
}

#[test]
fn initialise_extended_logs_given_settings() {
    let rscs = RuntimeShaderCompilerSettings {
        opt_level: 0,
        use_fastmath: 0,
        use_fastprecision: 1,
        use_fastint: 0,
    };
    let vis = VglInitSettings { legacy_pool_size: 4096, ram_threshold: 1024, msaa: 4 };
    let ctx = initialise_extended(rscs, vis);
    assert_eq!(
        ctx.commands[0],
        Command::SetupShaderCompiler {
            opt_level: 0,
            use_fastmath: 0,
            use_fastprecision: 1,
            use_fastint: 0,
        }
    );
    assert_eq!(
        ctx.commands[1],
        Command::InitExtended {
            legacy_pool_size: 4096,
            width: 960,
            height: 544,
            ram_threshold: 1024,
            msaa: 4,
        }
    );
}

#[test]
fn swap_buffers_presents_without_dialog_flag() {
    let mut ctx = initialise_default();
    swap_buffers(&mut ctx);
    let n = ctx.commands.len();
    assert_eq!(ctx.commands[n - 1], Command::SwapBuffers { has_commondialog: 0 });
}

#[test]
fn gen_buffers_hands_out_distinct_nonzero_handles() {
    let mut ctx = initialise_default();
    let mut buffers = vec![Buffer::default(); 5];
    gen_buffers(&mut ctx, &mut buffers);
    for (i, b) in buffers.iter().enumerate() {
        assert_ne!(b.0, 0);
        for other in &buffers[i + 1..] {
            assert_ne!(b.0, other.0);
        }
    }
    let n = ctx.commands.len();
    assert_eq!(ctx.commands[n - 1], Command::GenBuffers { count: 5 });

    let mut more = vec![Buffer::default(); 2];
    gen_buffers(&mut ctx, &mut more);
    for b in &more {
        assert!(!buffers.contains(b));
    }
}

#[test]
fn del_buffers_marks_handles_invalid() {
    let mut ctx = initialise_default();
    let mut buffers = vec![Buffer::default(); 3];
    gen_buffers(&mut ctx, &mut buffers);
    del_buffers(&mut ctx, &mut buffers);
    assert_eq!(buffers, vec![Buffer::default(); 3]);
    let n = ctx.commands.len();
    assert_eq!(ctx.commands[n - 1], Command::DeleteBuffers { count: 3 });
}

#[test]
fn gen_and_delete_textures() {
    let mut ctx = initialise_default();
    let mut textures = vec![Texture::default(); 4];
    gen_textures(&mut ctx, &mut textures);
    for (i, t) in textures.iter().enumerate() {
        assert_ne!(t.0, 0);
        for other in &textures[i + 1..] {
            assert_ne!(t.0, other.0);
        }
    }
    delete_textures(&mut ctx, &mut textures);
    assert_eq!(textures, vec![Texture::default(); 4]);
    let n = ctx.commands.len();
    assert_eq!(ctx.commands[n - 2], Command::GenTextures { count: 4 });
    assert_eq!(ctx.commands[n - 1], Command::DeleteTextures { count: 4 });
}

#[test]
fn buffer_data_uploads_elem_size_times_len_bytes() {
    let mut ctx = initialise_default();
    Buffer(3).data(&mut ctx, ARRAY_BUFFER, 4, 6, DYNAMIC_DRAW);
    let n = ctx.commands.len();
    assert_eq!(ctx.commands[n - 2], Command::BindBuffer { target: ARRAY_BUFFER, buffer: 3 });
    assert_eq!(
        ctx.commands[n - 1],
        Command::BufferData { target: ARRAY_BUFFER, byte_len: 24, usage: DYNAMIC_DRAW }
    );
    assert_eq!(ctx.bound_array_buffer, 3);
}

#[test]
fn texture_image_and_parameters_log_exact_arguments() {
    let mut ctx = initialise_default();
    let bound = Texture(8).bind(&mut ctx, TEXTURE_2D);
    bound.image_2d(&mut ctx, 0, 0x1908, 128, 64, 0x1908, 0x1401);
    bound.parameter_i(&mut ctx, 0x2801, 0x2601);
    bound.gen_mipmap(&mut ctx);
    let n = ctx.commands.len();
    assert_eq!(ctx.commands[n - 4], Command::BindTexture { target: TEXTURE_2D, texture: 8 });
    assert_eq!(
        ctx.commands[n - 3],
        Command::TexImage2D {
            target: TEXTURE_2D,
            level: 0,
            internalformat: 0x1908,
            width: 128,
            height: 64,
            format: 0x1908,
            type_: 0x1401,
        }
    );
    assert_eq!(
        ctx.commands[n - 2],
        Command::TexParameteri { target: TEXTURE_2D, pname: 0x2801, param: 0x2601 }
    );
    assert_eq!(ctx.commands[n - 1], Command::GenerateMipmap { target: TEXTURE_2D });
}

#[test]
fn enable_all_then_disable_all_leaves_no_slot_enabled() {
    let mut ctx = initialise_default();
    // A slot enabled before the round trip, outside the table.
    Attribute(40).enable(&mut ctx);

    let p = Program::new(
        1,
        vec![("pos".to_string(), 2), ("color".to_string(), 5)],
        Vec::new(),
    );
    let table = AttributeTable::with_locations_from(
        &p,
        vec!["pos".to_string(), "color".to_string()],
    )
    .expect("both names are declared");

    table.enable_all(&mut ctx);
    assert!(ctx.enabled.contains(&2));
    assert!(ctx.enabled.contains(&5));
    assert!(ctx.enabled.contains(&40));

    table.disable_all(&mut ctx);
    assert!(!ctx.enabled.contains(&2));
    assert!(!ctx.enabled.contains(&5));
    assert!(ctx.enabled.contains(&40));
}

#[test]
fn enable_and_disable_log_one_call_per_slot() {
    let mut ctx = initialise_default();
    let table = AttributeTable {
        names: vec!["a".to_string(), "b".to_string()],
        attributes: vec![Attribute(1), Attribute(3)],
    };
    let before = ctx.commands.len();
    table.enable_all(&mut ctx);
    table.disable_all(&mut ctx);
    let new = ctx.commands[before..].to_vec();
    assert_eq!(
        new,
        vec![
            Command::EnableVertexAttribArray { index: 1 },
            Command::EnableVertexAttribArray { index: 3 },
            Command::DisableVertexAttribArray { index: 1 },
            Command::DisableVertexAttribArray { index: 3 },
        ]
    );
}

#[test]
fn attribute_divisor_logs_exact_arguments() {
    let mut ctx = initialise_default();
    Attribute(7).divisor(&mut ctx, 1);
    let n = ctx.commands.len();
    assert_eq!(ctx.commands[n - 1], Command::VertexAttribDivisor { index: 7, divisor: 1 });
}

#[test]
fn uniform_set_subrange_offsets_the_location() {
    let mut ctx = initialise_default();
    let u = Uniform { location: 5, shape: UniformShape::FloatVec3 };
    u.set_subrange(&mut ctx, 3, 2);
    u.set_multi(&mut ctx, 4);
    u.set(&mut ctx);
    let n = ctx.commands.len();
    assert_eq!(
        ctx.commands[n - 3],
        Command::Uniform { location: 8, count: 2, shape: UniformShape::FloatVec3, transpose: false }
    );
    assert_eq!(
        ctx.commands[n - 2],
        Command::Uniform { location: 5, count: 4, shape: UniformShape::FloatVec3, transpose: false }
    );
    assert_eq!(
        ctx.commands[n - 1],
        Command::Uniform { location: 5, count: 1, shape: UniformShape::FloatVec3, transpose: false }
    );
}

#[test]
fn uniform_matrix_records_transpose_flag() {
    let mut ctx = initialise_default();
    let u = Uniform { location: 0, shape: UniformShape::Matrix4 };
    u.set_matrix(&mut ctx, true);
    u.set_subrange_matrix(&mut ctx, 2, 3, false);
    let n = ctx.commands.len();
    assert_eq!(
        ctx.commands[n - 2],
        Command::Uniform { location: 0, count: 1, shape: UniformShape::Matrix4, transpose: true }
    );
    assert_eq!(
        ctx.commands[n - 1],
        Command::Uniform { location: 2, count: 3, shape: UniformShape::Matrix4, transpose: false }
    );
}

#[test]
fn use_program_makes_the_program_current() {
    let mut ctx = initialise_default();
    let p = Program::new(11, Vec::new(), Vec::new());
    p.use_me(&mut ctx);
    assert_eq!(ctx.current_program, 11);
    let n = ctx.commands.len();
    assert_eq!(ctx.commands[n - 1], Command::UseProgram { program: 11 });
}

#[test]
fn program_lookup_reports_negative_for_unknown_names() {
    let p = Program::new(1, vec![("pos".to_string(), 0)], vec![("mvp".to_string(), 2)]);
    assert_eq!(p.get_attrib_location(&"pos".to_string()), 0);
    assert_eq!(p.get_attrib_location(&"nope".to_string()), -1);
    assert_eq!(p.get_uniform_location(&"mvp".to_string()), 2);
    assert_eq!(p.get_uniform_location(&"nope".to_string()), -1);
}
