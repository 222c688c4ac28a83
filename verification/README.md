# waycap-rs (verified core)

A Wayland screen-capture library with hardware encoding. The crate in `src/`
is verified with Verus; `app/` wraps it with the parts that talk to the
system (XDG portal, PipeWire, FFmpeg, EGL/OpenGL, Vulkan, worker threads).

`src/` layout:

- `types/` — capture configuration (`config`), errors (`error`), frame types.
- `pipeline/builder.rs` — `CaptureBuilder` and the settings it resolves to.
- `lib.rs` — `CaptureControls` (stop/pause/resume, frame interval),
  `ReadyState`, resolution negotiation step.
- `encoders/video.rs` — processing-loop steps, `FramePacer`, `ProcessingThread`.
- `encoders/dynamic_encoder.rs` — backend choice from request or GPU vendor.
- `encoders/opus_encoder.rs` — `AudioFramer`: sample framing, presentation
  times, capture timestamps of packets.
- `capture/audio.rs` — bounded microphone buffer and forwarding decision.
- `waycap_egl.rs` — vendor names, surface choice, DMA-BUF import attributes.
- `waycap_vulkan.rs` — vendor ids, queue family and memory type selection.
- `text.rs` — verified substring search.
