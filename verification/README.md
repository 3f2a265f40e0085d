# timeless_jewel

The TinyMT32 generator as seeded for Heroic Tragedy timeless jewels, and the
roll that picks which conquered notable replaces a radius notable.

- `src/` is the verified library (Verus):
  - `tinymt.rs`: the generator, its recurrence, tempering and the derived rolls,
    with the spec functions `next_state`, `temper_of`, `advance`, `seeded_state`;
  - `seeding.rs`: the alpha and bravo seeding rounds and `PartialInit`, the
    seeding state after the leading seeds;
  - `replacement.rs`: the weighted pick over the notable pool, the full
    replacement roll and the check of a jewel seed against observations;
  - `kalguur_pool.rs`: the notable pool and its names;
  - `fixtures.rs`: observed replacements for jewel seed 17962.
- `app/` holds the parallel searches over all 2^32 jewel seeds (rayon threads,
  progress printing, timing); each seed is checked by the library.
- `tests/` runs the library on concrete values.
