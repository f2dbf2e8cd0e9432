//! Models rooms across the Highfield and Fearnhill schools and renders each
//! into a canonical, collision-free textual identifier.

pub mod location;
pub mod ranged;

pub use location::FearnhillRoom;
pub use location::FearnhillSection;
pub use location::HighfieldBlock;
pub use location::HighfieldFloor;
pub use location::HighfieldRoom;
pub use location::Location;
pub use ranged::OutOfRange;
pub use ranged::RangedU8;
