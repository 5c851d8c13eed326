# scap

The decisions and pixel work of a cross-platform screen capture library,
written in Verus and proved against their contracts:

- `src/capturer/` — capture options and geometry; the size and area that a
  capture produces (`engine/mac`), the plan of a ScreenCaptureKit stream, what
  each captured sample becomes, and the frames built from pixel buffers
  (`engine/mac/pixelformat`); the target shown by a Linux screencast portal
  stream (`engine/linux`).
- `src/targets.rs` — windows and displays.
- `src/frame.rs` — frame types, row cropping and channel conversion.

`app/` holds the platform calls (ScreenCaptureKit, CoreGraphics) that hand the
library plain values and carry out what it decides.
