//! A scene graph over rapier2d physics worlds: engine-wide ids for bodies and
//! joints, the registry of bodies, the scenes with their listener slots, and
//! the handle through which a scene is changed.
pub mod engine;
pub mod handle;
pub mod lemmas;
pub mod physics;
