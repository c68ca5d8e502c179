# gpop

Verified core of gst-pop, a GStreamer pipeline daemon, and of gpop-web, its transcoding and
source-separation front end.

- `src/` is the library, written in Verus: every function carries a contract that Verus
  proves. It holds the command line of `gst-pop` (`cli`, `commands`), the daemon's rules for
  pipelines, playback runs, element listings and media discovery (`pipeline_rules`,
  `playback`, `registry`, `discoverer`, `websocket`), the requests of `gst-popctl`
  (`client`), and the front end's jobs: pipeline descriptions, the job manager, uploads,
  downloads, errors and the connection to the daemon (`job_pipeline`, `job_types`,
  `job_manager`, `api`, `config`, `error`, `gpop`, `progress`). `text`, `paths` and `table`
  are the string, path and keyed-table helpers the rest is built on.
- `tests/` runs the library on concrete values.
- `app/` is the gpop-web server: HTTP handlers, the WebSocket link to the daemon, storage on
  disk, and the JSON forms of the library's values. Started as `gst-popctl`, the same binary
  is the daemon's command-line client. It calls the library for every decision.

What is not here: the parts of the gst-pop daemon that drive GStreamer and D-Bus directly —
the pipeline manager that owns live pipelines, its bus-watch loop, the WebSocket and D-Bus
servers, and the runners behind `launch`, `play` and `inspect`. They need the `gstreamer`,
`gstreamer-pbutils` and `zbus` crates and the system libraries under them, which this crate
does not depend on, and the daemon's runtime modules are not part of it. The decisions those
parts make (what a bus message means for a pipeline, when a playback run ends and with which
exit code, how an element listing and a discovery result are formed, what the WebSocket
protocol answers) are in `src/` and verified; only the calls into GStreamer and D-Bus are
missing.
