pub mod helpers;
pub mod pentane;
pub mod presence;
pub mod text;

pub use presence::{get_display_name, get_mode_name, RPCEvent, RPCState};
