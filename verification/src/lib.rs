//! Core of a small real-time 3D engine: a keyed, deduplicated resource
//! cache with single-flight background loading, plus the plain data
//! types (transforms, materials, render batches) that hang off it.
//!
//! The heart of the crate is [`resource`]: a `ResourceManager` maps a
//! resource name to a stable slot index, each slot walking a one-way
//! `Loading -> Using` (or `Failed`) state machine, and a `ResTT` handle
//! lazily resolves a name against a manager, caching the slot index it
//! was given.  Construction work runs wherever the embedder puts it
//! (typically a background thread per task); results come back through
//! a one-shot channel per slot, so the manager itself stays
//! single-owner.

pub mod armature;

pub mod camera;

pub mod camera2;

pub mod component;

pub mod fbo;

pub mod input;

pub mod material;

pub mod mesh;

pub mod mesh_render;

pub mod render;

pub mod resource;

pub mod scene;

pub mod shader;

pub mod texture;

pub mod transform;

pub mod world;
