use vstd::prelude::*;

pub mod color;
pub mod text;
pub mod loc;
pub mod ids;
pub mod level;
pub mod classification;
pub mod menu;
pub mod screens;
pub mod slots;
pub mod text_entry;
pub mod sprite_cells;
pub mod editor;
pub mod animation;
pub mod portals;
pub mod player;
pub mod transition;
pub mod chain;
pub mod sorting;
pub mod tag_edit;
pub mod shortcuts;
pub mod squeeze;
pub mod portal_pairs;
pub mod status;
pub mod editor_step;
pub mod canvas;
