//! Rule engine for a two-player, turn-based card game in the style of
//! Mille Bornes: the card catalog, the playability rules, the deck and
//! hand lifecycle, and the turn and phase state machines.

pub mod cards;
pub mod rules;
pub mod state;
pub mod game;
