//! Simulation core of a two-player paddle-and-ball game.
//!
//! The crate holds the rules of the match and nothing of its presentation:
//! who scores and who serves next, how the ball's speed is kept in bounds,
//! how the computer opponent picks its moves, and which screen the match is
//! on. A caller owns the board and its bodies; once a frame it hands over
//! what happened and carries out what the rules decide.
//!
//! Everything is stated over integers. Lengths are counted in millionths
//! of a world unit, speeds in millionths of a world unit per second, time
//! in nanoseconds, and chances in millionths.
//!
//! - [`score`]: points, serve rotation, the pause before a serve, and the
//!   collisions that score.
//! - [`ball`]: the ball and the governor of its speed.
//! - [`player`]: the players, and the mind of the computer opponent.
//! - [`paddle`]: the paddles as bodies, their shape and their punch.
//! - [`board`]: the walls and the centre line.
//! - [`state`]: the screens of the match and the frame as a whole.
//! - [`audio`]: when the music plays.
//! - [`num`]: the integer arithmetic that the rules share.

pub mod audio;
pub mod ball;
pub mod board;
pub mod num;
pub mod paddle;
pub mod player;
mod random;
pub mod score;
pub mod state;
