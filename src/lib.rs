//! Sorts photos and videos into `<year>/<month>_<MonthName>` folders by the
//! date on which they were captured.
//!
//! The library decides everything: which metadata source applies to a file,
//! how a capture date is resolved from it, and where the file goes. The
//! caller performs the file system work that each decision asks for.

pub mod calendar;
pub mod capture;
pub mod embedded;
pub mod organize;
