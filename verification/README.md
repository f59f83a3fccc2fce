# un_avatar_render

The planning logic of an avatar mesh renderer, verified with Verus: which draws are
active and in what order they are drawn, how draws group into pipeline batches, which
assets stay resident, which textures a material samples and the flag word it hands the
shader, how shader sources and feature sets are chosen, the cube texture cache format,
fur card buffer sizing, skinning and morph bookkeeping, scene node paths and visibility,
and wardrobe and import reports.

- `src/` is the library. Every public function states its result in `ensures` over
  spec functions; the laws that relate several functions are public proof functions
  named `lemma_*`.
- `tests/` runs the library on concrete values.
- `app/` holds what the library leaves out: file and environment access, logging,
  JSON parsing and the floating-point steps (each marked where it stands).

Values that come from a GPU API or an asset importer enter the library as plain data:
the caller passes counts, indices, flags and names, and carries out the returned plans.
