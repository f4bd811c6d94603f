# partially_derive

The code generator behind `#[derive(Partial)]`, verified with Verus.

- `src/` is the verified library. `field_receiver` holds the model of one field
  with its `#[partially(..)]` options, the rules those options must obey and the
  declaration of the generated field; `impl_partial` renders one `Partial` impl;
  `derive_receiver` renders the partial struct and both impls and holds
  `expand_derive_partial`; `generics` asks `syn` for the impl and type generics;
  `text` holds the text helpers; `laws` states the properties that span functions.
- `app/` reads a `syn::DeriveInput` with `darling`, hands the options to the
  library as token text and turns the generated text into a `TokenStream`.
- `tests/` runs the library on concrete structs.
