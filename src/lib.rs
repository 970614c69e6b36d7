//! Reconstruction of bidirectional TCP and UDP flows from a sequence of
//! captured Ethernet frames.

pub mod datatype;
pub mod table;
pub mod dissect;
pub mod parser;
pub mod tcp;
pub mod udp;
