//! The core of a sensor data viewer: which readings to fetch from the
//! database, how a stored row becomes a reading, and how readings become the
//! points of a plot.

pub mod clock;
pub mod error;
pub mod plot;
pub mod query;
pub mod reading;
pub mod sensor;
pub mod settings;
pub mod store;
pub mod table;
pub mod window;
