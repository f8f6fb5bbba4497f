# rust_moteur_3d — verified core

The decision-making core of a real-time 3D engine (PBR materials, entity
event bus, texture decoding and mip chains, spatial audio bookkeeping, gameplay state machines, animation
keyframe lookup, procedural textures and mesh index buffers), verified with
Verus.

## Conventions

Verified code holds no floating-point values. Every `f32` parameter of the
engine is carried as its IEEE-754 bit pattern (`u32`, as given by
`f32::to_bits`); `float_bits` gives those patterns the order of the numbers
they encode, so clamping and comparisons behave exactly as `f32::clamp`,
`f32::max` and `<` do, NaN and signed zeros included. Arithmetic on floats
(physics integration, interpolation, trigonometry) is done by the caller,
which hands the verified functions its results.

## Layout

- `src/` — the verified library:
  - `float_bits` — binary32 ordering, clamp and max on bit patterns;
  - `scene` — `MaterialUniform` and quad-list index buffers;
  - `runtime` — `EngineConfig`, `MaterialBuilder`, property reflection
    (`Inspectable`, with a proved read-after-write law);
  - `ecs` — entity ids and the event bus;
  - `audio` — sound sources, id allocation, the bounded recent-events log;
  - `animation` — keyframe lookup, the modifier stack flags and the
    `MeshDeformer` marker type (its deformations are floating point, in `app/`);
  - `gpu::texture` — procedural checkerboard/grid/brick texels, mip counts,
    mip extents and the memory of a mip chain;
  - `gpu::imaging` — image decoding and the triangle-filtered mip chains of
    textures and cubemap faces, through the `image` crate;
  - `game` — shotgun firing, player damage, checkpoint race;
  - `physics` — the character controller's movement state;
  - `particles`, `renderer` — particle kinds, random stream, compute
    dispatch size, render modes.
- `app/` — the floating-point, GPU (`wgpu`), file and type-erased
  (`std::any`) layers built on the library.
- `tests/` — tests of the library.
