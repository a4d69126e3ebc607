# borzoi_assembly

Reads what the F# compiler says about the types and members of a managed assembly, and
lays it over the entity tree that was read from the metadata. The library is written in
Verus: every function states in its contract what it returns and when it fails, and the
contracts are proved.

## Layout

- `src/fsharp_pickle/` decodes the signature pickle: the two byte streams, the
  declaration tables, types, type parameters, values and type representations. `bounds`
  shows that what a decoded type refers to is in its tables.
- `src/fsharp_pickle_merge/` holds the overlays: measures, F# names and declaration
  ranges, union cases, extension members, module members, abbreviation markers and the
  order of declaration. `walk` is the walk that they share, `lookup` finds an entity by
  its path; `frame`, `steps` and `growth` say what an overlay leaves alone and how it
  changes the rest; `sorting` and `order_laws` do so for the order of declaration.
- `src/fsharp_resource.rs` classifies and inflates the resources that hold the pickle.
- `src/pdb/` reads the debug directory of an executable and the portable debug database.
- `src/image.rs` and `src/modifier_metamorphic/` put custom modifiers in front of every
  position of an image and compare two projections of it.
- `src/model.rs` is the entity tree; `src/text.rs`, `src/name_set.rs`, `src/reader.rs`
  and `src/same.rs` are helpers.
- `app/` is the unverified layer: serde copies of the entity tree, standard errors, and
  the findings of a probe in words.

## Contracts

A contract speaks of models: a type with texts and lists in it has a `..Model` type over
`Seq` and `Seq<char>`, and its `deep_view` is the value of that model. A decoder is
specified by a function from a tape, which is the bytes and the place in them, to a value
and the next tape, or to a failure. An overlay is specified by the tree that it makes.

The functions named `law_..` are theorems about several functions at once.

## What is not proved

Two calls into other code are trusted: inflating a deflate stream with flate2
(`fsharp_resource::inflate`) and decoding UTF-8 with the standard library
(`text::utf8_string`). Their doc comments say what is claimed of them.
