//! Verified core of the Erika AV1/AVIF playback kernel: codec-configuration
//! parsing, decoder bookkeeping, still-image policy, output vocabulary and the
//! compatibility shells that remain for subtitles and danmaku.

mod arith;
pub mod danmaku;
pub mod image;
pub mod media;
pub mod overlay;
pub mod ohos;
pub mod ohos_av1;
pub mod renderer;
pub mod subtitle;
pub mod subtitle_charset;
mod text;
