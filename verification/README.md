# hugo_server

A server that clones a Hugo project from Git, builds it, serves the site over
HTTPS, rebuilds it when the repository changes and uploads the site's search
records to Algolia; and an upload file server beside it.

- `src/` is the verified library (Verus): the configuration search and path
  resolution, the repository and build directories, the set-up and update
  steps of the site as state machines, the accepted upload and download
  names, error replies and caching, the Algolia headers, endpoints and batch,
  and the log filter.
- `app/` runs it: command-line arguments, reading files, running Git and
  Hugo, HTTP serving and the Algolia client.
- `tests/` exercises the library on concrete values.

Telemetry export (OpenTelemetry traces and metrics, and the runtime-metrics
task), the server-side HTTP cache layer and an in-process Git client are not
part of this build: Git runs as a command, and logs go to files and standard
error.
