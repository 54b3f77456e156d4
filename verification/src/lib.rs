pub mod bus;
pub mod events;
pub mod lights;
pub mod palette;
pub mod runner;
pub mod translate;
