//! The menus: the main menu and the pause menu.

pub mod main_menu;
pub mod pause_menu;
