# goldline

The verified core of Goldline, a desktop overlay that draws fixed-angle
reference lines over Gold Miner and can follow the claw's rope.

- `src/` is the library, checked by Verus: when the overlay lets the mouse
  through (`input`), the display modes and shortcuts (`mode`), when the
  configuration is written back (`persist`), the pacing, filtering and
  reporting of the claw tracker (`tracking`), settings values (`config`), the
  colour test for rope pixels (`vision`), and preview encoding (`preview`).
- `app/` is the Tauri program around it: windows, screen capture, the
  pointer, files, and the floating-point geometry of detection and layout.
- `tests/` exercises the library.
