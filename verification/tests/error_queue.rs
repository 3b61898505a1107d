use vita_gl_helpers::errors::{get_error, Errors, GlError};
use vita_gl_helpers::initialise_default;

#[test]
fn fresh_context_polls_no_error() {
    let mut ctx = initialise_default();
    assert_eq!(get_error(&mut ctx), GlError::NoError);
    assert_eq!(get_error(&mut ctx), GlError::NoError);
}

#[test]
fn poll_dequeues_one_error_at_a_time() {
    let mut ctx = initialise_default();
    ctx.record_error(GlError::InvalidEnum);
    ctx.record_error(GlError::OutOfMemory);
    assert_eq!(get_error(&mut ctx), GlError::InvalidEnum);
    assert_eq!(get_error(&mut ctx), GlError::OutOfMemory);
    assert_eq!(get_error(&mut ctx), GlError::NoError);
}

#[test]
fn next_yields_each_error_once_then_none() {
    let mut ctx = initialise_default();
    ctx.record_error(GlError::InvalidValue);
    assert_eq!(Errors::next(&mut ctx), Some(GlError::InvalidValue));
    assert_eq!(Errors::next(&mut ctx), None);
    assert_eq!(Errors::next(&mut ctx), None);
}

#[test]
fn drain_is_exhaustive_and_idempotent_after_drain() {
    let mut ctx = initialise_default();
    ctx.record_error(GlError::InvalidOperation);
    ctx.record_error(GlError::StackUnderflow);
    ctx.record_error(GlError::StackOverflow);
    let first = Errors::drain(&mut ctx);
    assert_eq!(
        first,
        vec![GlError::InvalidOperation, GlError::StackUnderflow, GlError::StackOverflow]
    );
    let second = Errors::drain(&mut ctx);
    assert!(second.is_empty());
    assert_eq!(get_error(&mut ctx), GlError::NoError);
}

#[test]
fn drain_of_fresh_context_is_empty() {
    let mut ctx = initialise_default();
    assert!(Errors::drain(&mut ctx).is_empty());
}

#[test]
fn error_names_match_driver_log_strings() {
    assert_eq!(GlError::NoError.name(), "GL_NO_ERROR");
    assert_eq!(GlError::InvalidEnum.name(), "GL_INVALID_ENUM");
    assert_eq!(GlError::InvalidValue.name(), "GL_INVALID_VALUE");
    assert_eq!(GlError::InvalidOperation.name(), "GL_INVALID_OPERATION");
    assert_eq!(
        GlError::InvalidFramebufferOperation.name(),
        "GL_INVALID_FRAMEBUFFER_OPERATION"
    );
    assert_eq!(GlError::OutOfMemory.name(), "GL_OUT_OF_MEMORY");
    assert_eq!(GlError::StackUnderflow.name(), "GL_STACK_UNDERFLOW");
    assert_eq!(GlError::StackOverflow.name(), "GL_STACK_OVERFLOW");
}

#[test]
fn error_codes_round_trip() {
    let all = [
        GlError::NoError,
        GlError::InvalidEnum,
        GlError::InvalidValue,
        GlError::InvalidOperation,
        GlError::InvalidFramebufferOperation,
        GlError::OutOfMemory,
        GlError::StackUnderflow,
        GlError::StackOverflow,
    ];
    for e in all {
        assert_eq!(GlError::from_code(e.code()), Some(e));
    }
    assert_eq!(GlError::NoError.code(), 0);
    assert_eq!(GlError::InvalidEnum.code(), 0x0500);
    assert_eq!(GlError::OutOfMemory.code(), 0x0505);
    assert_eq!(GlError::from_code(0x1234), None);
}
