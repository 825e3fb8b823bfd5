# secalc_core

The verified core of a calculator for designing Space Engineers ships, written in Verus.

- `src/grid`: directions and per-direction values, block counts, battery and hydrogen tank modes.
- `src/xml.rs`: navigation of XML documents (parsed by `roxmltree`) over a model of their nodes.
- `src/text.rs`: decimal numbers, text equality and containment.
- `src/entries.rs`: the model of insertion-ordered maps (`linked-hash-map`).
- `src/data`: what game data extraction decides: mods, localized texts, block identities and
  kinds, which blocks are hidden or renamed (`regex`), and the entity components of blocks.
- `src/ui`: the state machines of the calculator's user interfaces: input fields, pages, the
  saved calculators, and the save and load dialogues.
- `app/`: the command line tool that extracts game data from an installation into a JSON file,
  with the floating-point block details and the grid calculator.
