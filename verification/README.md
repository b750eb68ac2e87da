# meerkat

The syntax trees of the Meerkat language and the parts of its runtime that
work on them, written in Verus with their behaviour stated in contracts and
proved.

- `src/ast.rs`, `src/symbol.rs`, `src/binding_id.rs`, `src/types.rs`: the
  syntax and type representations.
- `src/interner.rs`: string interning (symbol 0 is the empty string; a
  string gets one symbol; a symbol gives its string back).
- `src/display.rs`, `src/repr.rs`: the human-readable text of trees and their
  `Debug` form.
- `src/cloning.rs`: deep copies of trees.
- `src/printer.rs`: the indented tree listing behind `--ast`.
- `src/node.rs`: the programs a node has loaded, each path at most once.
- `src/addresses.rs`: listen addresses, public server addresses, service URLs
  and import slugs.
- `src/text.rs`: decimal numbers, joined lists and quoted strings.
- `app/`: the command line (argument parsing, logging, reading files,
  printing).
