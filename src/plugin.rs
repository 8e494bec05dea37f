pub mod notepad_plus_msgs;
pub mod npp_dark_mode;
pub mod plugin_interface;
pub mod sci_position;
pub mod scintilla;
