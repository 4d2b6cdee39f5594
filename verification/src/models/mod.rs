pub mod fetch;
pub mod laws;
pub mod system;
pub mod universe;

pub use fetch::{Failure, Fetched};
pub use system::{Position, System, SystemView};
pub use universe::{Universe, UniverseError, UniverseView};
