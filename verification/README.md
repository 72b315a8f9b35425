# media

The decision-making core of an FFmpeg-based media toolkit, written in Verus and verified:
what a transcode or a frame extraction decides, computes and checks, separated from the
FFmpeg calls that decode, filter, encode and mux.

- `src/` — the verified library.
  - `error`, `codec::receive` — FFmpeg return-code conventions (`AVERROR_*`, send/receive).
  - `time`, `rational` — durations, time bases, `av_rescale`-exact timestamp rescaling, bit rates.
  - `types` — pixel/sample formats, codecs, channel layouts, presets and their FFmpeg numbers.
  - `packet`, `frame` — timestamps and shapes of packets and decoded frames.
  - `filter` — typed filter-chain descriptions and the filter graph's source arguments.
  - `codec` — decoder parameters, encoder configuration, audio FIFO chunking, resampler set-up.
  - `format` — the demuxer's streams and seek requests; the muxer's header/packet rules.
  - `probe` — stream metadata without decoding.
  - `extract` — sampling plans and the per-frame sampling decisions, file naming, reports.
  - `transcode` — output configuration, the transcode builders and the pipeline's decisions.
  - `log` — FFmpeg log levels and their names.
- `tests/` — tests of the library on concrete values.
- `app/` — what cannot be verified: the libavutil calls for log levels, version and error
  text, the environment, threads, image encoding, and the floating-point parameters of some
  filters and of progress reporting. The loops that drive FFmpeg's demuxers, decoders, filter
  graphs, encoders and muxers are not part of this crate.
