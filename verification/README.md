# amd_apcb

A verified library for the on-disk structures of the AMD AGESA PSP Configuration Blob
(APCB): group and entry headers, entry ids, token enums, the Naples parameter list, and
the structs, bit fields and element sequences of the memory, DF, GNB, FCH and PSP entries.

The library is written in Verus. Every executable function in `src/` carries a contract,
and the proof functions named `lemma_*` state the laws that relate the functions to each
other (byte encodings that read back, setters that a getter reads back, compatibility
checks that exclude each other).

Layout:

- `src/bits.rs`: reading and writing bit fields of integers.
- `src/le.rs`: little-endian encodings of integers (through `byteorder`).
- `src/types.rs`: the error type.
- `src/struct_accessors.rs`: how booleans are stored as numbers.
- `src/ondisk/`: the structures, one module per group of entries.
- `tests/`: tests of the library.
- `app/`: serde support for the console output mode.
