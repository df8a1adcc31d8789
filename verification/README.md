# uapki

Digital-signature verification (CMS/CAdES, p7s) through UAPKI's direct C
interface, with the wrapper's decisions proved in Verus.

- `src/types.rs`: validation levels and their wire codes, verdict codes,
  errors, the network configuration and its default.
- `src/outcome.rs`: how a verification call's status, signer count and verdict
  become `Ok(Verified)`, `Invalid`, `Indeterminate` or a UAPKI error.
- `src/calls.rs`: the `init` protocol as a step function (clear the trusted
  set, then configure), the NUL checks in front of C strings, and what each
  call hands the C side.
- `src/der_list.rs`: certificate blobs paired with their lengths.
- `app/`: the foreign calls themselves and the process-global lock that
  orders them, driving the library.
