//! Tells whether a Windows executable targets a 32-bit or a 64-bit machine,
//! by decoding its legacy (DOS) header and its extended (PE) header.
pub mod layout;

pub mod decode;
