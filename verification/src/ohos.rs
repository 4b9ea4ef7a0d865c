//! HarmonyOS media support.

pub mod avcodec;
