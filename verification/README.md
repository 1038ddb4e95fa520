# fileferry

A small HTTP file-transfer proxy between a local directory and an S3
bucket, with its decision logic verified in Verus.

- `src/` is the verified library: path validation, configuration
  resolution, listing order and pagination, filesystem root
  containment, S3 key mapping and listing, the bearer gate, boot
  warnings, the `doctor` report, trace context, error replies, the
  transfer size cap and the copy audit record. Every function carries
  a `requires`/`ensures` contract; the properties that span functions
  are stated as public proof functions next to the code they are
  about.
- `app/` is the binary around it: argument handling, file and network
  I/O, the axum router and middleware, the AWS SDK calls, and the
  serde forms of the library's types.
- `tests/` exercises the library through its public API.

Calls into other crates (`subtle`, `sha2`, `aws-smithy-types`, and
`String::push` of std) sit behind small functions whose contracts are
trusted; each names the function it calls and what is claimed of it.
