use vita_gl_helpers::attribute::{
    Attribute, AttributeFormat, AttributeSize, AttributeType, FALSE, TRUE,
};
use vita_gl_helpers::buffer::Buffer;
use vita_gl_helpers::context::Command;
use vita_gl_helpers::initialise_default;

const ALL_SIZES: [AttributeSize; 4] = [
    AttributeSize::ONE,
    AttributeSize::TWO,
    AttributeSize::THREE,
    AttributeSize::FOUR,
];

const ALL_TYPES: [AttributeType; 6] = [
    AttributeType::Byte,
    AttributeType::UnsignedByte,
    AttributeType::Short,
    AttributeType::UnsignedShort,
    AttributeType::Fixed,
    AttributeType::Float,
];

#[test]
fn every_format_round_trips_through_call_values() {
    for size in ALL_SIZES {
        for type_ in ALL_TYPES {
            for normalized in [false, true] {
                let f = AttributeFormat { size, type_, normalized };
                let flag = if normalized { TRUE } else { FALSE };
                let decoded = AttributeFormat::from_call_values(size.count(), type_.code(), flag);
                assert_eq!(decoded, Some(f));
            }
        }
    }
}

#[test]
fn invalid_call_values_do_not_decode() {
    assert_eq!(AttributeFormat::from_call_values(5, 0x1406, FALSE), None);
    assert_eq!(AttributeFormat::from_call_values(3, 0x9999, FALSE), None);
    assert_eq!(AttributeFormat::from_call_values(3, 0x1406, 7), None);
}

#[test]
fn size_counts_match_driver_values() {
    assert_eq!(AttributeSize::ONE.count(), 1);
    assert_eq!(AttributeSize::TWO.count(), 2);
    assert_eq!(AttributeSize::THREE.count(), 3);
    assert_eq!(AttributeSize::FOUR.count(), 4);
    assert_eq!(AttributeSize::from_count(0), None);
    assert_eq!(AttributeSize::from_count(2), Some(AttributeSize::TWO));
}

#[test]
fn type_codes_match_driver_enums() {
    assert_eq!(AttributeType::Byte.code(), 0x1400);
    assert_eq!(AttributeType::UnsignedByte.code(), 0x1401);
    assert_eq!(AttributeType::Short.code(), 0x1402);
    assert_eq!(AttributeType::UnsignedShort.code(), 0x1403);
    assert_eq!(AttributeType::Float.code(), 0x1406);
    assert_eq!(AttributeType::Fixed.code(), 0x140C);
}

#[test]
fn bind_to_passes_exactly_the_stored_descriptor_values() {
    let mut ctx = initialise_default();
    let format = AttributeFormat {
        size: AttributeSize::THREE,
        type_: AttributeType::UnsignedByte,
        normalized: true,
    };
    Buffer(6).bind_to(&mut ctx, Attribute(2), format, 16, 12);
    let n = ctx.commands.len();
    assert_eq!(
        ctx.commands[n - 1],
        Command::VertexAttribPointer {
            index: 2,
            size: 3,
            type_: 0x1401,
            normalized: 1,
            stride: 16,
            offset: 12,
        }
    );
    assert_eq!(ctx.bound_array_buffer, 6);
}

#[test]
fn pointer_flag_is_false_for_unnormalized() {
    let mut ctx = initialise_default();
    let format = AttributeFormat {
        size: AttributeSize::TWO,
        type_: AttributeType::Float,
        normalized: false,
    };
    Attribute(0).pointer(&mut ctx, format, 8, 0);
    let n = ctx.commands.len();
    assert_eq!(
        ctx.commands[n - 1],
        Command::VertexAttribPointer {
            index: 0,
            size: 2,
            type_: 0x1406,
            normalized: 0,
            stride: 8,
            offset: 0,
        }
    );
}
