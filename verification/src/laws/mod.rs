//! What the operations of the library mean for those who use it, stated of their
//! inputs and results.
pub mod amounts;
pub mod booking;
pub mod books;
pub mod closing;
pub mod delays;
pub mod engine;
pub mod fills;
pub mod instruments;
pub mod journal;
pub mod market;
pub mod notation;
pub mod opening;
pub mod orders;
pub mod prices;
pub mod recovery;
pub mod reporting;
pub mod scanning;
pub mod screen;
pub mod settings;
pub mod statistics;
pub mod timing;
pub mod trades;
