# gst-thumbnailers

Thumbnailers for video and audio files built on GStreamer: the video
thumbnailer takes an embedded cover picture or, failing that, the most varied
of several frames; the audio thumbnailer takes the embedded cover picture.
The result is written as a PNG no larger than a given square.

- `src/` is the verified library (Verus). It takes the decisions of the
  thumbnailers: the plugins they need (`plugins`), how decoders are limited to
  one thread and which registry features are hardware decoders (`plugins`),
  how to react to the outcome of pausing a pipeline and to each bus message
  (`pipeline`), which picture of a tag list is the cover (`tags`), where in a
  video frames are taken and how padded frame rows are packed (`frame`), the
  scaling of a cover picture through the `image` crate (`picture`), and the
  error type with its report text (`error`, `text`).
- `app/` runs the GStreamer pipelines, parses the command line with clap,
  decodes and encodes pictures with glycin, writes files, and computes in
  floating point the thumbnail dimensions and the frame variance used to pick
  the most varied frame.
- `tests/` holds tests of the library.
