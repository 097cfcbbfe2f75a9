pub mod commands;
pub mod errors;
pub mod g213_keyboard;
pub mod text;
pub mod usb;
pub mod x11_colours;
