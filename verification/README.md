# b2_writer

A verified core for writing files to Backblaze B2.

- `src/writer.rs`: what each operation asks of the service.
- `src/request.rs`, `src/response.rs`: the requests and the answers.
- `src/acknowledgement.rs`: exchanges that end once the service has consented.
- `src/retrieval.rs`: exchanges that end with something read from the answer.
- `src/part.rs`: stored parts and the checksums that a file is finished with.
- `app/`: runs the exchanges over a connection to the service and decodes its JSON.

What is taken on trust: that `http::StatusCode::OK` equals the number 200 and no other, and what
`str::strip_prefix` is documented to return.
