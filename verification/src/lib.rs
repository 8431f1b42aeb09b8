//! Guest-support pieces of an iPhone OS emulator: the AArch64 calling
//! convention helpers, a deterministic memory-corruption stress tester, and the
//! state tracking behind the GLES1-on-GLES2 translation logger.

pub mod a64_abi;
pub mod corrupt;
pub mod gles;
