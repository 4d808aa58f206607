# neon_ffmpeg

Decision logic of a Node.js binding to the FFmpeg libraries, verified with Verus.

- `src/` — the verified library: presentation-time correction (`pts`), duration
  reporting (`duration`), stream selection and packet routing (`stream`),
  channel layouts (`channel`), resampler configuration and the resampling step
  machine (`resample`), subtitle text selection (`subtitle`) and the decode step
  machine (`decode`).
- `app/` — the Node.js module: reads JavaScript arguments, performs the FFmpeg
  calls each step machine asks for, and builds the JavaScript results.
- `tests/` — tests of the library on concrete values.
