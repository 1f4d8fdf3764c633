# AES-128, verified

AES-128 with the context, key schedule and modes (ECB, CBC, OFB) of mbed TLS,
written in Verus. Every function carries a contract over a mathematical
description of AES, and Verus proves each body against it.

- `src/gf.rs`: GF(2^8) arithmetic, and the S-box defined from the field
  inverse and the affine map.
- `src/tables.rs`: the lookup tables the cipher reads, with proofs that each
  entry is what the mathematics says (S-boxes, products, round constants).
- `src/spec.rs`: the round functions, the cipher and inverse cipher, the key
  schedule and the three modes as functions on byte sequences.
- `src/aes.rs`: the executable library.
- `src/laws.rs`: what holds across calls: decryption undoes encryption (block,
  ECB, CBC), OFB is its own inverse, a CBC or OFB stream split across calls
  that pass on the IV (and, for OFB, the offset) each call leaves gives what
  one call gives, and word reads give back word writes.
