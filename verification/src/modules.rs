//! Single-purpose device and desktop controllers: each plans the commands
//! it would issue; the surrounding program performs them.

pub mod brightness;
pub mod flatpak;
pub mod notification;
pub mod wallpaper;
pub mod wallust;
