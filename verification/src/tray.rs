//! What the tray shows, worked out from the status: titles, pictures and
//! menus, as plain values for the caller to draw.

pub mod manager;
pub mod menu;
pub mod network;
pub mod pixmap;
pub mod sections;
