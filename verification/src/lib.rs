//! Planning and protocol logic for launching one command inside an isolated
//! root filesystem built from a container image.
//!
//! The crate performs no input or output. It decides what has to be done, in
//! which order, and what each answer from the outside world means; the caller
//! performs the operations and reports back.
//!
//! - `sandbox`: the launch, phase by phase, and the status message that the
//!   child sends to the parent.
//! - `images`: image references, manifests, and the client of the registry.
//! - `plan`: the operations that a launch asks for.
//! - `fs`: paths, the bind mount of the root, directory listings.
//! - `json`: JSON documents.
//! - `message`: the status message as it is written, and its recognition.
//! - `text`: helpers for strings.

pub mod fs;
pub mod images;
pub mod json;
pub mod message;
pub mod plan;
pub mod sandbox;
pub mod text;
