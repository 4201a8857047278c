//! A terminal Game of Life core: a sparse set of live cells, the
//! generation-advance engine, and the play/pause/speed/message state
//! machine that an interactive front end drives.

pub mod cells;
pub mod engine;
pub mod state;
pub mod events;
