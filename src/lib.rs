//! An aquarium simulation: fish move inside their areas, avoid each other,
//! and a tank keeps its population in step with a feed of records.
//!
//! All quantities are fixed-point integers: lengths in millionths of a canvas
//! unit, speeds in thousandths of a unit per second, time in milliseconds,
//! scaling factors and probabilities in thousandths.
pub mod geometry;
pub mod random;
pub mod collision;
pub mod motion;
pub mod movement;
pub mod fish;
pub mod fish_config;
pub mod fish_data;
pub mod fish_legend;
pub mod legend;
pub mod input_data;
pub mod scene_config;
pub mod scenes;
pub mod show_legend;
pub mod config;
pub mod resources;
pub mod fish_tank;
pub mod bandata;
pub mod show_text;
pub mod csvdata;
