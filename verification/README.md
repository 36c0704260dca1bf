# macpak

The logic of MacPak, a Baldur's Gate 3 modding toolkit, as a library whose
behaviour is stated in contracts and proved with Verus.

- `src/text.rs`, `src/numeric.rs`: text and number helpers every tab uses
  (decimal and hexadecimal text, UTF-8 byte offsets, code-point order, exact
  reproductions of the float roundings shown to users).
- `src/app.rs`, `src/registration.rs`: the application object, the events
  each tab binds, and how registrations combine.
- `src/state/`: the state of each tab as plain values: file browser
  (listing, filters, sort order, preview, context menu, renames and
  conversions), editor tabs, PAK operations (progress, results log, mod
  checks, batch bookkeeping), GR2 conversion paths, dye lab (parameters,
  generated and imported dyes), tools (identifier and colour histories,
  version calculator), index search, and the window.
- `src/tabs/`: per-tab logic that works on those states: size and timestamp
  display, stable sorting and filtering of file lists, find and replace with
  regular expressions, editor file operations and validation, dye icon
  textures (DDS), the text files and layout of an exported dye mod
  (stats, localization, root templates, colour presets, texture bank),
  dye import merging, UUIDs and handles,
  colour and version conversions.
- `tests/`: tests of the library on concrete values.
- `app/`: a small command-line front end that reads directories and files and
  prints what the library decides.

Calls into outside crates (regex, roxmltree, serde_json, chrono, uuid, rand)
and into std's path handling stand behind small trusted functions whose
contracts say what the call returns; everything else is verified.
