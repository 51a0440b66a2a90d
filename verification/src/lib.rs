//! Logic for a small microcontroller board that plays a falling-block puzzle on
//! an addressable LED strip or on a chain of dot-matrix modules, and that reads
//! a time-of-flight ranging sensor.
//!
//! Everything here works on plain values. Peripheral access (clock, pins,
//! random numbers, bus transfers) belongs to the firmware around this crate:
//! it reads, hands the readings in, and sends out what comes back.
//!
//! - [`color`], [`tetromino`], [`board`], [`piece`]: the data of the game.
//! - [`game`]: the state machine of moves, rotation, gravity and locking.
//! - [`input`], [`scheduler`]: the debounced buttons and one turn of the loop.
//! - [`pulse`], [`matrix`]: the two display encoders.
//! - [`ranging`]: register arithmetic for the ranging sensor.
//!
//! Each type has a mathematical view (`Grid`, `Shape`, `Piece`, `Game`,
//! `Gate`, `Session`), and each function says in its contract what it does to
//! those views. What holds across functions is stated in the `lemma_` proofs.

pub mod board;
pub mod color;
pub mod game;
pub mod input;
pub mod matrix;
pub mod piece;
pub mod pulse;
pub mod ranging;
pub mod scheduler;
pub mod tetromino;
