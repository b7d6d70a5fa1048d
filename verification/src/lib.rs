//! A single-producer, single-consumer double buffer ("ping-pong") shared
//! between a writer thread and a reader thread through one atomic state word.

pub mod state;
pub mod protocol;
pub mod pingpong;
pub mod history;
pub mod audio;
pub mod display;
pub mod window;
pub mod cli;
