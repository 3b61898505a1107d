use vita_gl_helpers::buffer::{Buffer, ELEMENT_ARRAY_BUFFER, STATIC_DRAW};
use vita_gl_helpers::context::Command;
use vita_gl_helpers::draw::{
    draw_arrays, Elements, ElementsBufU16, ElementsBufU32, ElementsU16, ElementsU32, Mode,
    UNSIGNED_INT, UNSIGNED_SHORT,
};
use vita_gl_helpers::errors::{get_error, GlError};
use vita_gl_helpers::initialise_default;

#[test]
fn inline_u16_quads_issues_one_plain_draw_with_count_4() {
    let mut ctx = initialise_default();
    // Upload 4 vertices (two floats each, 8 bytes per vertex).
    let vertices = Buffer(1);
    vertices.data(&mut ctx, vita_gl_helpers::buffer::ARRAY_BUFFER, 8, 4, STATIC_DRAW);
    let logged_before = ctx.commands.len();

    let indices: [u16; 4] = [0, 1, 3, 2];
    let elements = ElementsU16 { indices: &indices };
    elements.draw(&mut ctx, Mode::Quads);

    let new = &ctx.commands[logged_before..];
    assert_eq!(new.len(), 2);
    assert_eq!(new[0], Command::BindBuffer { target: ELEMENT_ARRAY_BUFFER, buffer: 0 });
    assert_eq!(
        new[1],
        Command::DrawElements { mode: 0x0007, count: 4, type_: UNSIGNED_SHORT }
    );
    // Exactly one draw call of any kind was issued.
    let draws = ctx
        .commands
        .iter()
        .filter(|c| {
            matches!(
                c,
                Command::DrawElements { .. }
                    | Command::DrawElementsInstanced { .. }
                    | Command::DrawArrays { .. }
            )
        })
        .count();
    assert_eq!(draws, 1);
}

#[test]
fn inline_u32_binds_zero_and_uses_unsigned_int() {
    let mut ctx = initialise_default();
    let indices: [u32; 3] = [0, 1, 2];
    let elements = ElementsU32 { indices: &indices };
    elements.draw(&mut ctx, Mode::Triangles);
    let n = ctx.commands.len();
    assert_eq!(
        ctx.commands[n - 2],
        Command::BindBuffer { target: ELEMENT_ARRAY_BUFFER, buffer: 0 }
    );
    assert_eq!(
        ctx.commands[n - 1],
        Command::DrawElements { mode: 0x0004, count: 3, type_: UNSIGNED_INT }
    );
    assert_eq!(ctx.bound_element_array_buffer, 0);
}

#[test]
fn buffer_backed_u16_binds_real_handle() {
    let mut ctx = initialise_default();
    let elements = ElementsBufU16 { indices: Buffer(9), len: 6 };
    elements.draw(&mut ctx, Mode::Lines);
    let n = ctx.commands.len();
    assert_eq!(
        ctx.commands[n - 2],
        Command::BindBuffer { target: ELEMENT_ARRAY_BUFFER, buffer: 9 }
    );
    assert_eq!(
        ctx.commands[n - 1],
        Command::DrawElements { mode: 0x0001, count: 6, type_: UNSIGNED_SHORT }
    );
    assert_eq!(ctx.bound_element_array_buffer, 9);
}

#[test]
fn buffer_backed_u32_instanced_records_primcount() {
    let mut ctx = initialise_default();
    let elements = ElementsBufU32 { indices: Buffer(4), len: 12 };
    elements.draw_instanced(&mut ctx, Mode::Points, 100);
    let n = ctx.commands.len();
    assert_eq!(
        ctx.commands[n - 1],
        Command::DrawElementsInstanced { mode: 0x0000, count: 12, type_: UNSIGNED_INT, primcount: 100 }
    );
}

#[test]
fn well_formed_draw_leaves_error_queue_empty_for_every_variant() {
    let u16_indices: [u16; 3] = [0, 1, 2];
    let u32_indices: [u32; 3] = [0, 1, 2];

    let mut ctx = initialise_default();
    ElementsU16 { indices: &u16_indices }.draw(&mut ctx, Mode::Triangles);
    assert_eq!(get_error(&mut ctx), GlError::NoError);

    let mut ctx = initialise_default();
    ElementsU32 { indices: &u32_indices }.draw(&mut ctx, Mode::Triangles);
    assert_eq!(get_error(&mut ctx), GlError::NoError);

    let mut ctx = initialise_default();
    ElementsBufU16 { indices: Buffer(2), len: 3 }.draw(&mut ctx, Mode::Triangles);
    assert_eq!(get_error(&mut ctx), GlError::NoError);

    let mut ctx = initialise_default();
    ElementsBufU32 { indices: Buffer(2), len: 3 }.draw(&mut ctx, Mode::Triangles);
    assert_eq!(get_error(&mut ctx), GlError::NoError);
}

#[test]
fn draw_arrays_logs_exact_arguments() {
    let mut ctx = initialise_default();
    draw_arrays(&mut ctx, Mode::Triangles, 5, 30);
    let n = ctx.commands.len();
    assert_eq!(ctx.commands[n - 1], Command::DrawArrays { mode: 0x0004, first: 5, count: 30 });
}

#[test]
fn mode_codes_match_driver_enums() {
    assert_eq!(Mode::Points.code(), 0x0000);
    assert_eq!(Mode::Lines.code(), 0x0001);
    assert_eq!(Mode::Triangles.code(), 0x0004);
    assert_eq!(Mode::Quads.code(), 0x0007);
}
