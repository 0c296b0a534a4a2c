//! Location choice, request building and forecast reporting for a small
//! weather lookup tool.
//!
//! - [`text`]: trimming, and reading and writing decimal numerals.
//! - [`location`]: from the menu line or custom entry to a place.
//! - [`request`]: the address at which a forecast is asked for.
//! - [`report`]: from the service's answer to the lines that are shown.
//! - [`session`]: a whole run, step by step, for a front end to act out.
//! - [`error`]: the ways in which input is refused.
//!
//! The library holds no floating-point values. A latitude, a longitude or a
//! reading is held in the decimal text in which it is shown; turning a typed
//! line or a received number into that text is the front end's part.

pub mod error;
pub mod location;
pub mod report;
pub mod request;
pub mod session;
pub mod text;
