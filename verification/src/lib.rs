//! Deterministic, data-driven procedural world generation: seeded random
//! sources, parameterized value distributions, block-selection strategies,
//! composable spatial predicates, a placement-modifier pipeline, a
//! recursive feature tree, and the integer core of the cave carver.
//!
//! Everything here is exact: each draw, each selection and each chunk
//! write is pinned to a spec-level model, so a world seed determines the
//! generated terrain. The floating-point collaborators (Perlin sampling,
//! the carver's tunnel geometry) live outside the library and hand their
//! results in as plain values.

pub mod block;
pub mod block_event;
pub mod block_predicate;
pub mod block_state_provider;
pub mod carver;
pub mod chunk;
pub mod configured_features;
pub mod desert_well;
pub mod fallen_tree;
pub mod height_provider;
pub mod int_provider;
pub mod math;
pub mod piston;
pub mod placed_features;
pub mod random;
pub mod random_boolean_selector;
pub mod random_patch;
pub mod random_selector;
pub mod simple_block;
pub mod simple_random_selector;
pub mod tree;
