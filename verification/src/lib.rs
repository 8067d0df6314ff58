//! Lotus: the bookkeeping of a small 2D game engine — timers, sprite-sheet
//! animation states, keyed resource caches, geometry index buffers, render
//! type indices and the engine's built-in font table — with its behaviour
//! stated in contracts and proved.
pub mod cache;
pub mod constants;
pub mod entity;
pub mod frame;
mod key_seal;
pub mod rendering;
pub mod physics;
pub mod render;
pub mod shape;
pub mod sprite;
pub mod sprite_sheet;
pub mod text;
pub mod time;
pub mod visibility;
pub mod window;

