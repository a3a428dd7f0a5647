//! Verified core of a small file-sharing service: the data exchanged between
//! the upload client, the relay server and the notification daemon, and the
//! decisions each of them takes around its network, disk and window work.

pub mod ident;
pub mod text;
pub mod model;
pub mod relay;
pub mod upload;
pub mod groups;
pub mod client;
pub mod daemon;
pub mod localdata;
