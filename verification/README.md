# doh_resolver

DNS lookups that prefer DNS-over-HTTPS, with the decisions verified by Verus.

The library in `src/` decides; it performs no I/O. It turns settings and urls
into name servers, reads CA certificates out of PEM texts, builds resolver
configurations, and plans lookups: which source is asked, in which order, for how
long, and when plaintext DNS is allowed. Whoever uses it performs the action that
a function names and hands back what came of it.

- `doh`, `doh_url`, `endpoint`, `pem`, `tls`: the configuration of a DoH server
- `name_servers`, `resolver`: the configuration of the resolvers
- `lookup`, `system_dns`, `runtime`, `socket`: the plans of lookups, and how they
  go on
- `context`, `records`: socket options, TXT and SRV records
- `addr`, `text`, `error`: plain values
- `laws`: what holds of the library as a whole

`app/` runs the plans with tokio and hickory: sockets, files, timers and the
state of the process. `tests/` runs the library with the real `url`, `base64`,
`rustls` and `hickory` crates.

The contracts of calls into those crates are stated at small functions that make
the call, marked `external_body`; everything else is proved.
