# xmip-core-context

Message Context: what accumulates as a Message is handled, verified with Verus.

- `src/property.rs`: the names a property travels under, and `header`, which
  builds `<protocol>.header.<name>` with the name folded to lower case only
  where the protocol's specification folds it. The laws of the header names
  (prefix, case of the protocol, one header per spelling where names fold,
  distinct headers per spelling where they do not) are proof functions there.
- `src/identity.rs`: both identities a Message arrived with and the alignment
  policy across them, with its laws.
- `src/context.rs`: the Message Context, a map from names to scalar values,
  kept in the order of the names.
- `src/terms.rs`: the terms an identity is described in (Party, layer,
  mechanism, identity class, how a claim was established).
- `src/text.rs`: ASCII case folding and the order of keys, with their lemmas.
- `tests/`: the scenarios, run against the compiled library.
