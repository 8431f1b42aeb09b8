pub mod gles1_on_gles2_logging;
