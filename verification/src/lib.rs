//! The logic of a small v2ray/shadowsocks subscription client: reading
//! subscription links, keeping them in a JSON storage file, writing the
//! configuration that starts the proxy core, and tracking which node is
//! selected and which one runs.

pub mod codec;
pub mod config;
pub mod display;
pub mod link;
pub mod node;
pub mod selection;
pub mod storage;
pub mod text;
