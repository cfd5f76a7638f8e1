//! Core of a small arcade game: a square that grows by eating food and shrinks
//! on hazards, driven by a stack of screens that exchange messages.
//!
//! Lengths are held in micro-pixels (`UNIT` per pixel) and time in milliseconds,
//! so that every rule of the simulation is exact integer arithmetic.

pub mod msg;
pub mod geometry;
pub mod player;
pub mod edible;
pub mod spike;
pub mod settings;
pub mod game;
pub mod data;
pub mod bindings;
pub mod menu;
pub mod static_screen;
pub mod options;
pub mod font;
pub mod model;
pub mod engine;
pub mod random;
pub mod screen;
pub mod layout;
