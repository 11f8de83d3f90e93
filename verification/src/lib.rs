//! Documentation for the implementors of a peripheral: the protocol's data
//! model, the proportional layout of packet diagrams, and the pages that
//! describe each payload.

pub mod book;
pub mod diagram;
pub mod document;
pub mod model;
pub mod text;

pub use book::{Book, Direction, PayloadDocument};
pub use diagram::generate_packet_diagram;
pub use document::{document, Documentation};
pub use model::{DeviceInfo, OpenPID, PacketSegment, Payload, PayloadSet};
