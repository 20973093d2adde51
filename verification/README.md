# extras_fetcher

Finds, downloads and files extras (trailers, featurettes, behind-the-scenes
footage, deleted scenes, interviews, Season 0 specials) for Jellyfin movie
and series libraries.

The decisions live in a library verified with Verus (`src/`): the searches
sent to each provider, which results are kept and how they are filed, the
de-duplication across providers and the per-category caps, the choice of a
video for a special, file naming, the ffmpeg arguments, the command-line
checks and the configuration display. Each public function states what it
returns in its `ensures`; the `law_*` proof functions state properties that
span several functions.

Calls into other crates (regex, serde_json, urlencoding, chrono, std's
Unicode case mapping) sit behind small trusted wrappers whose contracts name
or describe what those crates return.

`app/` is the program around the library: argument parsing with clap, the
configuration file, the terminal output, and the HTTP, `yt-dlp` and ffmpeg
calls whose answers it hands to the library.

`tests/` holds the tests, run against the compiled library.
