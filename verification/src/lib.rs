//! Layered settings engine for a text-translation desktop tool: a typed
//! settings tree with a sparse override mirror, leaf-wise merge operations,
//! a cached settings store with an ordered write-behind queue, and the pure
//! decision logic of the surrounding subsystems.

pub mod accent_color_provider;
pub mod events_manager;
pub mod notifications;
pub mod requests_executor;
pub mod settings;
pub mod shortcuts_manager;
pub mod text_extractor;
pub mod tray_icon;
pub mod window_manager;
