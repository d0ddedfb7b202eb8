//! A companion for Terraria that fishes for the player.
//!
//! It lives inside the process of the game. A worker thread decides, the thread of the
//! game carries out, and an overlay shows and switches. Here is everything that decides:
//! plain values come in, plain values go out, and what has to be asked of the game or of
//! the system in between is a request that the surrounding program carries out.
//!
//! - [`worker`]: the rounds of the worker thread.
//! - [`fishing`]: the automaton that casts, waits, pulls and looks after the inventory.
//! - [`input`]: presses and other deeds on the thread of the game.
//! - [`game`] and [`clr`]: what is read from the game, and how it is found.
//! - [`overlay`]: the panel, its windows, and the pictures and letters they are made of.
//! - [`config`], [`lang`], [`logging`], [`crash`], [`detour`]: the rest of the household.
//! - [`laws`]: what all of this is for, said in plain terms and proved.
//! - [`single`] and [`text`]: the numbers with a fraction that the game uses, and texts.

pub mod clr;
pub mod config;
pub mod crash;
pub mod detour;
pub mod fishing;
pub mod game;
pub mod input;
pub mod lang;
pub mod laws;
pub mod logging;
pub mod overlay;
pub mod single;
pub mod text;
pub mod worker;
