# umst_manifold — verified runtime gate census

The runtime gate of the manifold: cold-edge transition evidence, the explain-code
vocabulary, the cold-wire telemetry wire, and the SEC arc censuses (S1–S7, MCP-WRAP,
GW-WRAP, GW-AUDIT, BRIDGE-ARCS) with their barrel roll-up. Every census, probe, honesty
check, table renderer and scrub routine is a Verus-verified function whose contract states
exactly what it returns.

Layout:

- `src/text.rs` — string helpers (equality, containment, decimal and bool rendering) with
  their specifications.
- `src/runtime/gate/` — one module per surface; `mod.rs` holds the barrel inventory and
  census.
- `src/runtime/nalgebra_algebra.rs` — posture pins and honesty fences of the 3×3 tensor
  scaffold.
- `app/` — the host side: the `f32` admissibility margin, JSON copies of the wire types
  (serde), and the `nalgebra` tensor carrier.
- `tests/` — executable tests against the library.

Each census takes the measured outcome of the cold-edge evidence probe
(`gate_evidence_wired`), obtained from `gate_transition_evidence_probe` on the host's
witness, so every contract is exact in that outcome.
