# bourso_api

Verified core of a BoursoBank immediate-transfer client.

- `src/progress.rs`: the stages of a transfer, their numbers and descriptions.
- `src/flow.rs`: validation of a transfer's parameters and the decision of
  what a transfer does after each stage (report the next stage, stop on an
  error, or end), with the laws of a transfer's course.
- `src/request.rs`: the URL and multipart form each stage sends.
- `src/reply.rs`: how each stage reads its reply (status, transfer id, flow
  instance, confirmation screen).
- `src/page.rs`: reading the bank's pages (flow step, flow instance,
  confirmation screen, transfer id); regular expressions go through the
  `regex` crate.
- `src/text.rs`: substring search, splitting and character replacement.
- `src/error.rs`: the client's and the transfer's errors.
- `app/`: the network side (reqwest, async stream, logging) that sends the
  requests the library builds and feeds replies back to it.
