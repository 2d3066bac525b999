# imgtest

A small REST service that takes images (uploaded as `multipart/form-data`
files, given as URLs, or sent as JSON with Base64 or URL sources) and writes
a thumbnail of each, fitted within 100×100 pixels, inside `media/thumbnails`.

- `src/` is the verified library (Verus): the models of images and their
  sources, which images an upload yields (`upload`), how an image's bytes are
  fetched and where its thumbnail goes (`models`), the server's answers
  (`replies`), and the shutdown watchdog, a state machine with its laws
  (`watchdog`). Calls into `url`, `base64` and `comrak` go through the
  trusted items of `bindings`.
- `app/` is the server around it: Rocket routes and fairing, multipart
  parsing, downloads, image codecs, threads and signals.
- `tests/` runs the library on concrete values.
