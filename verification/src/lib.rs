//! Verified core of the deepin audio service: device tables, card lifecycle,
//! port-switch coordination, event dispatch decisions and the conversion of
//! sound-server replies into the service's own state records.

pub mod backend;
pub mod manager;
pub mod text;
