# erika

The verified core of the Erika AV1/AVIF playback kernel, written in Verus.

`src/` holds the logic, each function with a contract that Verus proves:

- `ohos_av1` — AV1 codec-configuration records and the choice of a
  hardware AV1 decoder.
- `ohos::avcodec` — decoder-configuration parsing (AVC/HEVC records to
  Annex-B), length-prefixed packet conversion, parameter-set bookkeeping,
  the AVCodec callback queues, NV12 output layouts, consumer-Surface frame
  accounting and the error texts of the HarmonyOS decoder.
- `image` — the limits and checks of a decode-once still image, the bounded
  render extent and the lifecycle of the decoded pixels.
- `renderer::output`, `renderer::pipeline`, `media` — the output and color
  vocabulary and media time spans.
- `subtitle`, `subtitle_charset`, `overlay`, `danmaku` — bitmap primitives
  and the compatibility shells of the subtitle and danmaku subsystems, which
  this build does not include.

`app/` is ordinary Rust around the library: the HarmonyOS platform calls,
the floating-point output and danmaku types, and error types with their
display texts. `tests/` exercises the library on concrete values.

Not here: the drivers that open a still image's source, demux it and search
for its first frame (`DecodedImage::decode*` and the first-frame search), and
the shared SDR renderer that renders it. They run on the player's media
source, FFmpeg and GPU renderer, which are not part of this crate; what they
decide is in `image`: `StillImageDecode` gives the order of the decode's
checks and steps, `FirstFrameSearch` the first-frame search, and the
request, track, budget, extent and metadata checks have functions of their
own.
Budget messages print the time limit as its exact decimal value.
