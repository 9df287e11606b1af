# grok-sampler

The retry policy of a model sampling client, verified with Verus.

Given a sampling error and the number of retries so far, the library decides what
to do next: wait and retry, rebuild the HTTP client, strip the images from the
request, hand the error to the session, or give up. It also describes errors in
words and holds the configuration of a request.

- `src/retry.rs`: the budget, the backoff, the decision, and copies of errors
- `src/error.rs`, `src/json.rs`: sampling errors and what is read off them
- `src/format.rs`: descriptions of errors
- `src/config.rs`: request configuration and retry policy
- `src/serde_helpers.rs`: readings of optional fields in lenient JSON
- `src/text.rs`: decimal numbers, substring search, joining
- `src/laws.rs`: what holds of the policy as a whole
- `src/outside.rs`: the calls into other crates, with the contracts that are
  believed of them
- `app/`: the environment, serde, and the conversions from the HTTP client's and the
  JSON reader's own errors
