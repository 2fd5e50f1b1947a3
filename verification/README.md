# Reconstructing SystemVerilog from elaborated designs

A verified library that writes an elaborated SystemVerilog design back as
syntax trees: every struct and enum type becomes a typedef in a package
`global_types`, every design instantiation a module of its own, and packages
and compilation units keep their items in order.

Layout of `src/`:

- `elaborate/` — the elaborated design (`ty`, `expr`, `hier`) and
  `reconstruct`, which turns it into syntax, with a contract for each step and
  the properties the whole keeps (type references resolve, integers and
  dimensions keep their values, units and items keep their order).
- `syntax/` — the syntax trees written (`ast`, `tokens`), each with a
  mathematical twin (`Spec*`) that contracts speak of.
- `lexer/kw.rs` — keywords and their display text.
- `number.rs`, `source.rs`, `text.rs` — constants, spans, decimal names.
