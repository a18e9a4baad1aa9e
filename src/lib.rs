pub mod host;
pub mod keyboard;
pub mod startup;
