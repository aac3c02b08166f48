# bolt_driver

Connection-level configuration of a Bolt (Neo4j protocol) driver, verified
with Verus.

- `src/scheme.rs`: the table of URI schemes (`bolt`, `bolt+s`, `bolt+gmssl`,
  `neo4j+ssc`, ...) and the lookups over it, with the table's laws (unique
  names, every name resolves to its entry, validation and TLCP imply
  encryption, `+s`/`+ssl` spellings agree).
- `src/auth.rs`: TLS settings of a connection (CA file, mutual TLS, TLCP
  dual-certificate settings).
- `src/tlcp.rs`: the plan that turns TLS settings into Tongsuo context
  configuration, the connector that carries it out, and per-connection
  session set-up; `src/tls_backend.rs` holds the Tongsuo/Tokio calls it
  makes, each with the contract it is trusted for. What each context,
  session and stream was configured with is kept as a log of settings, so
  the contracts say exactly what is handed to Tongsuo and in which order.
- `src/report.rs`: the text of the error lines and handshake reports.
- `app/`: conversion of URL hosts and the
  asynchronous handshake.
