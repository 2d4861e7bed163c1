# zhc

Verified core of a compiler for homomorphic-encryption processing units (HPUs), written in
Verus: every function of the library carries a contract that Verus proves.

## Layout

- `src/` — the library.
  - `ids`, `idmap`, `ir`, `annotation`: identifiers, id-keyed maps, the typed SSA IR and its
    annotated views.
  - `eager`: push-based evaluation of an IR, with failures recorded and propagated.
  - `translation`: driver-based IR-to-IR translation with operation provenance.
  - `pipeline_lang`, `pipeline_graph`, `pipeline_context`: the compilation flow as an IR of
    compilation steps, and the inputs a compilation is declared with.
  - `vm_bytecode`, `vm_config`: the software VM's instruction stream and storage sizing.
  - `locality`, `multi_hpu`, `statistics`: multi-board placement, the router between the boards
    of a simulated system, and per-board execution statistics.
  - `shiftrot`, `erc7984`: the wiring of encrypted shifts and rotations, and the arithmetic of
    encrypted fund transfers.
  - `layout`, `html`: the layout dialect behind IR drawings, and HTML escaping.
  - `compat`, `bench`: the supported integer operations, and the benchmark command line.
  - `strutil`, `text`: string scanning and decimal rendering used throughout.
- `tests/` — tests of the library on concrete values.
- `app/` — the benchmark program: process and file I/O, measurement through the compiler and
  simulator, terminal tables and the results site, and the Tracy profiling backend.
