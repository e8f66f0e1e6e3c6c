pub mod text;
pub mod fmt;
pub mod encoding;
pub mod events;
pub mod media;
pub mod notifications;
pub mod clock;
pub mod wechat;
pub mod chrome;
pub mod ide;
pub mod battery;
pub mod sensor;
pub mod cli;
pub mod json;
pub mod album_art;
pub mod netease;
pub mod system;
pub mod devices;
pub mod bookmarks;
