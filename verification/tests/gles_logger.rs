use touchhle::gles::gles1_on_gles2_logging::{
    instrument_rendering_pipeline, log_gl_state_initialized, log_initialization, GLES1to2Logger,
    GL_INVALID_ENUM, GL_INVALID_OPERATION, GL_INVALID_VALUE, GL_NO_ERROR, GL_OUT_OF_MEMORY,
};

#[test]
fn logger_keeps_operation_identity() {
    let logger = GLES1to2Logger::new(17, "glOrthof", "projection");
    assert_eq!(logger.operation_id(), 17);
    assert_eq!(logger.operation_name(), "glOrthof");
    assert_eq!(logger.context(), "projection");
    let timing = logger.finish();
    assert_eq!(timing.operation_id, 17);
    assert_eq!(timing.operation_name, "glOrthof");
}

#[test]
fn gl_error_names() {
    let logger = GLES1to2Logger::new(1, "glGetError", "test");
    assert_eq!(GL_NO_ERROR, 0);
    assert_eq!(logger.log_error(GL_NO_ERROR), "GL_NO_ERROR");
    assert_eq!(logger.log_error(GL_INVALID_ENUM), "GL_INVALID_ENUM");
    assert_eq!(logger.log_error(0x0500), "GL_INVALID_ENUM");
    assert_eq!(logger.log_error(GL_INVALID_VALUE), "GL_INVALID_VALUE");
    assert_eq!(logger.log_error(GL_INVALID_OPERATION), "GL_INVALID_OPERATION");
    assert_eq!(logger.log_error(GL_OUT_OF_MEMORY), "GL_OUT_OF_MEMORY");
    assert_eq!(logger.log_error(0x0505), "GL_OUT_OF_MEMORY");
    assert_eq!(logger.log_error(0x0503), "UNKNOWN_GL_ERROR");
    assert_eq!(logger.log_error(1), "UNKNOWN_GL_ERROR");
}

#[test]
fn viewport_fix_validity() {
    let logger = GLES1to2Logger::new(2, "glViewport", "test");
    assert_eq!(logger.log_viewport(0, 0, 320, 480, None), None);
    assert_eq!(logger.log_viewport(0, 0, 320, 480, Some((0, 0, 480, 320))), Some(true));
    assert_eq!(logger.log_viewport(0, 0, 320, 480, Some((-1, 0, 480, 320))), Some(false));
    assert_eq!(logger.log_viewport(0, 0, 320, 480, Some((0, -1, 480, 320))), Some(false));
    assert_eq!(logger.log_viewport(0, 0, 320, 480, Some((0, 0, 0, 320))), Some(false));
    assert_eq!(logger.log_viewport(0, 0, 320, 480, Some((0, 0, 480, 0))), Some(false));
    assert_eq!(logger.log_viewport(0, 0, 320, 480, Some((0, 0, 0x8000_0000, 1))), Some(false));
    assert_eq!(logger.log_viewport(0, 0, 320, 480, Some((0, 0, 0x7fff_ffff, 0x7fff_ffff))), Some(true));
}

#[test]
fn banners_print_once() {
    let mut init = false;
    assert!(log_initialization(&mut init, true));
    assert!(!log_initialization(&mut init, true));
    assert!(!log_initialization(&mut init, true));
    let mut banner = false;
    assert!(instrument_rendering_pipeline(&mut banner, true));
    assert!(!instrument_rendering_pipeline(&mut banner, true));
    let mut summary = false;
    assert!(log_gl_state_initialized(&mut summary, true));
    assert!(!log_gl_state_initialized(&mut summary, true));
}

#[test]
fn banner_waits_for_logging_to_be_enabled() {
    let mut init = false;
    assert!(!log_initialization(&mut init, false));
    assert!(!init);
    assert!(!log_initialization(&mut init, false));
    assert!(log_initialization(&mut init, true));
    assert!(!log_initialization(&mut init, false));
    assert!(!log_initialization(&mut init, true));
    let mut banner = false;
    assert!(!instrument_rendering_pipeline(&mut banner, false));
    assert!(instrument_rendering_pipeline(&mut banner, true));
    let mut summary = false;
    assert!(!log_gl_state_initialized(&mut summary, false));
    assert!(log_gl_state_initialized(&mut summary, true));
    assert!(!log_gl_state_initialized(&mut summary, true));
}

#[test]
fn logger_with_given_start() {
    let start = std::time::Instant::now();
    let logger = GLES1to2Logger::with_start(9, "glRotatef", "modelview", start);
    assert_eq!(logger.operation_id(), 9);
    assert_eq!(logger.operation_name(), "glRotatef");
    assert_eq!(logger.context(), "modelview");
    let timing = logger.finish();
    assert_eq!(timing.operation_id, 9);
    assert!(timing.elapsed_us <= start.elapsed().as_micros());
}
