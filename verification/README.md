# ssl_connector

Connectors and acceptors for TLS over OpenSSL, with secure defaults, and the verification that the
certificate of a peer is made out to the domain that was asked for.

The library in `src/` is verified with Verus. It decides which OpenSSL calls make a context or open
a session, and in which order, and it matches certificates against domains. `app/` makes those
calls through a binding to OpenSSL.

- `dns`: DNS name patterns with wildcards
- `ip`: IP addresses and their raw form in a certificate
- `verify`: certificates against a domain
- `flags`: the options and modes of every context
- `context`, `session`: contexts and sessions, as the lists of the calls that make them
- `connector`, `acceptor`: the client side and the server side
- `run`: carrying out a list of calls up to the first that fails
- `cacerts`: loading a directory of trusted roots
