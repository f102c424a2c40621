//! Messages and enumerations of the client protocol.

pub mod client_enums;
pub mod control_enums;
pub mod game_enums;
pub mod layout_enums;
pub mod messages;
pub mod text_enums;
