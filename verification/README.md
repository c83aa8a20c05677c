# moonlight-common

Client side of the Moonlight game streaming protocol, verified with Verus.

The library in `src/` holds the rules of the protocol and does no I/O:

- `http` - query strings and their percent-encoding, the client's identity, the address of a
  request, errors, and the plan by which a client trusts a server: exactly the pinned
  certificate where one is known, the regular verification otherwise.
- `stream` - audio and video configurations, frames between moonlight-common-c and decoders,
  decoders that pull their frames, stream settings and what a server makes of them, keys.
- `text`, `version` - small helpers.

The functions of the library state in their contracts what they return; the methods of the
traits that users implement promise only what the library relies on. A pulling decoder's
`submit_decode_unit` promises nothing: no caller can meet its precondition. Properties that span several functions
are public proof functions next to the functions they speak of.

`app/` connects the library with the C interface of moonlight-common-c and with ureq and rustls.
`tests/` runs the library on concrete values.
