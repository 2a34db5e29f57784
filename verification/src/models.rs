//! The domain objects that the admission rule reads.

pub mod rooms;
pub mod users;

pub use rooms::Room;
pub use users::User;
