# crawlberg (verified fetch core)

The HTTP fetch layer of the crawlberg crawler, written in Verus.

- `src/` is the verified library: browser-faithful default headers
  (`defaults`), header tables (`headers`, `response_headers`), the order in
  which a request's headers are applied (`request`) and their application to a
  `reqwest` request builder (`builder`), URL parsing (`target`), the treatment
  of response statuses, headers and bodies (`response`), the retry policy
  (`retry`), TLS profiles built with `rustls` (`tls`), and string helpers
  (`text`). Calls into `reqwest`, `url`, `rustls`, `webpki-roots` and std
  functions that vstd does not specify go through small trusted wrappers whose
  contracts are documented where they stand.
- `app/` is the Tower service around the library: it sends the request, reads
  the body, sleeps between retries, and asks the surrounding crawler (SSRF
  policy, WAF detection, transport-error classification) through the
  `FetchEnvironment` trait.
- `tests/` exercises the library with the real outside crates.
