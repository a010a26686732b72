//! The rules behind each remote collaborator: the presence transport and the
//! three web services.
pub mod discord;
pub mod flavortown;
pub mod hackatime;
pub mod intent;
pub mod pyramid;
