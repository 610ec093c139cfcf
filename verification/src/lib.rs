//! A weather report library: the decisions and the text of a small
//! command-line weather client, stated as contracts and proved.
//!
//! The library never touches the network, the terminal or the environment.
//! A front end performs those steps and hands plain values in; the library
//! decides what to request, how to classify what came back, and which lines
//! of styled text make up a report.

pub mod clock;
pub mod conditions;
pub mod decimal;
pub mod driver;
pub mod error;
pub mod fetch;
pub mod presenter;
pub mod report;
pub mod style;
pub mod text;
pub mod units;
