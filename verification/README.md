# file

Presigned S3 upload URLs and signed (CloudFront) or presigned (S3) read URLs,
with the deciding logic verified by Verus.

- `src/` — the verified library. `routes`, `config`, `dto`, `services`,
  `controllers` and `error` hold the service's logic; `text` and `paths` hold
  string and path operations; `media`, `links`, `signing` and `storage` hold the
  trusted items through which `mime_guess`, `url`, `cloudfront_sign` and
  `aws-sdk-s3` are called, each with the contract it is believed to meet.
- `app/` — the axum routes, the OpenAPI annotations, the middleware and the
  calls that need the network, the clock or the file system.
- `tests/` — tests on concrete values, run against the real outside crates.
