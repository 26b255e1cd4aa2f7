# evc

Entropy-decoding core of an MPEG-5 EVC video decoder, verified with Verus.

- `src/dec/bsr.rs`: bitstream reader (most significant bit first; zeros past the end).
- `src/dec/sbac.rs`: the context-adaptive binary arithmetic decoder: `reset`,
  `evcd_sbac_decode_bin`, `decode_bin_trm`, their specifications and laws.
- `src/com/mod.rs`: context models and their counts.
- `src/dec/ctx.rs`, `src/api/`: decoder context and public types.
- `app/`: the public enums with their `num_derive` / `arg_enum_proc_macro`
  derives and `Display`, converting to and from the library's types.
