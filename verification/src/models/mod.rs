pub mod action;
pub mod order;
pub mod position;

pub use action::Action;
pub use order::Order;
pub use position::Position;
