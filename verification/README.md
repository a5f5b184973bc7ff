# Rusty Rays

A simple primary-bounce ray tracer.

## Layout

* `src/` is the library, verified with Verus:
  * `text`, `numeric`, `values`: words of scene file lines, numbers, coordinates, colors, light types
  * `scene`, `parser`: the scene file format and its reader
  * `model`: the scene model, with its primitives by identifier and kind
  * `config`: the configuration resolved from the configuration file and the defaults
  * `render`: the render schedule (thread count, pixel of each ray, progress reports)
  * `image_data`: rendered pixels as image bytes, and encoding them in memory
  * `logger`, `errors`
* `app/` is the command-line program: file and terminal I/O, configuration
  and log files, and the floating-point work (geometry, intersections, shading).
* `tests/` holds the tests of the library.

#### Logging

* The application creates a log folder in the user's cache directory
* The logger defaults to console-only logging if it cannot create the log folder or file

#### Config

* The application creates a `config.json` file in the user's config directory
* If the file is inaccessible, the application uses its internal default config
