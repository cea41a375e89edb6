# sol-atlas-core

The world model behind Sol Atlas: map layers and their provenance, evidence
records for natural events, provenance-bearing claims and entities, composable
view contexts, and Confluence, a count of where real-world systems of
different layers share a hexagonal cell.

The library (`src/`) is written in Verus: each public function states what it
returns in its contract, and the properties that span functions are proved as
proof functions beside them. Floating-point values are held as their IEEE bit
patterns; calls into `serde_json` and `chrono` sit behind small trusted
wrappers whose contracts name what the call returns.

- `src/` the verified library
- `tests/` tests on concrete values
- `app/` the application layer: dataset records read with serde, file
  loading, H3 cell location with `h3o`, floating-point display text, serde
  forms of the library's types, and reactive state with `leptos`
