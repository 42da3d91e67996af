pub mod decimal;
pub mod text;
pub mod wire;
pub mod codec;
pub mod net;
pub mod command;
pub mod protocol;
pub mod session;
pub mod sessions;
pub mod store;
pub mod ids;
pub mod legacy;
pub mod entities;
pub mod frame;
pub mod record;
