# proposed_traits

Hardware-abstraction traits for message digests, ECDSA over elliptic curves
and one-time-programmable (OTP) memory, together with simulated
implementations whose behaviour is specified and proved with Verus.

Layout:

- `src/digest.rs`, `src/ecdsa.rs`, `src/otp.rs`, `src/common.rs`: the traits
  and their error types.
- `src/otp/examples.rs`: an in-memory OTP device with soak programming, its
  abstract model (`OtpImage` and the `spec_*` functions) and the laws proved
  over that model.
- `src/simulation/digest_dispatch.rs`: a simulated hash controller.
- `src/simulation/ecdsa.rs`: secp384r1 scalars, keys, signatures and the
  SHA-384 digest type; curve checks are made by `p384` and hashing by `sha2`
  through small trusted wrappers whose contracts are stated in the file.
- `tests/`: executable tests against the compiled library.
