//! Which encoder backend to use, how well it does, and when to change it.

pub mod capability;
pub mod factory;
pub mod health;

pub mod selection;
pub mod driver;
