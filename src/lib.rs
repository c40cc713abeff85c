pub mod cursor;
pub mod position;
pub mod text_store;

pub use cursor::{new, Cursor};
pub use position::Position;
pub use text_store::TextStore;
