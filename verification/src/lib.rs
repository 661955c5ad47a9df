//! Use Iced user interfaces inside a Bevy application.
//!
//! This crate holds the decisions that the Bevy systems of the integration
//! make: how a frame's input messages become the queue of events that the
//! user interface sees, which modifier keys are held, which cursor the
//! interface is built with, how the per-message-type interface caches are
//! checked out and returned, and when the render pass draws.

use vstd::prelude::*;

pub mod systems;
pub mod render;
pub mod context;

verus! {

/// The main feature of `bevy_iced`: the plugin that installs the systems,
/// resources and render pass of the integration into an application.
#[derive(Default, Clone, Copy, Debug, PartialEq, Eq)]
pub struct IcedPlugin;

} // verus!
