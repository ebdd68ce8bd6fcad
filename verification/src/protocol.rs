pub mod communication;
pub mod json;
pub mod messaging;
pub mod results;
pub mod state;
pub mod stream;
