//! The vocabulary of weather variables that a forecasting service speaks: encoding variables
//! as wire tokens and decoding them back (pressure-level variables included), joining them
//! into request parameters, building request queries, and decoding time-series responses.
//! Beside it, the small pieces of logic of a desktop clock that shows the weather over a
//! background picture.
pub mod text;
pub mod error;
pub mod variable;
pub mod hourly;
pub mod daily;
pub mod current;
pub mod varmap;
pub mod series;
pub mod list;
pub mod query;
pub mod options;
pub mod unsplash;
pub mod endpoints;
pub mod slideshow;
pub mod weather;
pub mod config;
