//! Core of a Wayland windowing-shell backend: window lifecycle, render
//! pipeline, damage tracking, timers and idle queues, and input routing,
//! modelled over plain values so that every decision the backend makes is
//! verified.  Protocol transport, shared-memory mapping and rasterisation are
//! reached only through traits that the embedding program implements.

pub mod application;
pub mod builder;
pub mod clipboard;
pub mod command;
pub mod dialog;
pub mod error;
pub mod geometry;
pub mod handle;
pub mod handler;
pub mod idle;
pub mod menu;
pub mod modal;
pub mod region;
pub mod screen;
pub mod timer;
pub mod window;

pub use geometry::{Point, Rect, Scale, Size};
pub use region::Region;
