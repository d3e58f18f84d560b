# nekostream

A Discord voice bot that relays live PCM audio (from a raw TCP stream or an
ffmpeg-converted input URL) into voice channels.

The logic lives in a Verus-verified library under `src/`:

- `text` – character utilities with exact specifications: ASCII lowercase,
  Unicode whitespace trimming, left-to-right placeholder replacement, and
  reading and writing `u32` decimals.
- `messages` – localized response templates: lookup with `en-US` fallback,
  placeholder filling, locale normalization, the built-in templates, and the
  TOML template file.
- `config` – the configuration variables, their defaults and the checks
  that refuse an unusable configuration.
- `autoleave` – the per-guild autoleave modes and their stored form.
- `commands` – the registered slash commands, routing, the `/autoleave`
  payload, and reply texts.
- `voice` – who is in which voice channel, human counting, and the `/start`
  and autoleave decisions.
- `ffmpeg` – the ffmpeg command line, the report of an ended run, and the
  retry loop's steps.
- `ingest` – the steps of the raw PCM listener and of its client pump.
- `bridge` – the PCM bridge from broadcast chunks to a byte stream; the
  blocking receive itself happens in `app/`.

`app/` holds the program around it: reading the environment and files,
the Discord and voice clients, the network and process ingest, and the
standard I/O traits over the bridge. `tests/` exercises the library.
