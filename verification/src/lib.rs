//! A build-and-package pipeline for compiled wasm module targets: it
//! drives an external compiler, classifies its structured output into
//! artifacts and diagnostics, generates host bindings for each
//! compiled module, optionally patches the module's export surface,
//! and plans the bundling of each target into a servable output
//! directory.
pub mod bindgen;
pub mod cargo;
pub mod installer;
pub mod paths;
pub mod pipeline;
pub mod run;
pub mod test_project;
pub mod text;
pub mod wasm_post;
pub mod webpack;
