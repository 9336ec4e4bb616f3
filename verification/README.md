# lemon

A trap for malicious crawlers. It recognises the files that scanners probe
for (`.env`, `.git/config`, `.aws/credentials`, `.aws/config`, `phpinfo()`
pages, `wp-login.php`) and answers each with a plausible decoy; everything
else gets nginx's 404 page. Requests are counted per decoy in Prometheus.

## Layout

- `src/` is the library, verified with Verus: request URL normalization
  (repeated percent decoding, control characters stripped), form decoding,
  the decoy generators and their recognisers, dispatch to the first generator
  that recognises a request, and the settings. Contracts state what each
  function returns; the proof functions named `lemma_*` state the library's
  laws (decoys are recognised in any directory, what every decoy holds,
  normalized text holds no control character, and so on).
- `app/` is the `lemon` program: command line, settings file, the HTTP and
  metrics listeners, and the Prometheus counters.
- `tests/` runs the library on concrete requests.

Run it with `lemon run <CONFIG>`, where the TOML file names
`http_address`, `metrics_address` and `environment` (`production` or
`development`).
