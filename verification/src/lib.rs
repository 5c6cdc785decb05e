//! A runaway train on its way to Ciampino: the simulation behind a one-screen
//! arcade game, with every rule of it stated as a contract and proved.
//!
//! The player's crank drives the train. Too little speed and it stops short of
//! the station, too much and it explodes. Every real quantity is held in fixed
//! point (see [`units`]), so the whole simulation is integer arithmetic.

pub mod draw;
pub mod game;
pub mod laws;
pub mod rng;
pub mod route;
pub mod score;
pub mod text;
pub mod units;
pub mod utils;

pub use crate::game::MyGame;
pub use crate::score::prime_minister_rating;
