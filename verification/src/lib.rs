//! Client for the IPC channel to the OS service that patches HID input
//! remapping. The library holds the verified core: the wire layout of the
//! command buffers, the decoding of the service's reply byte, and the
//! decisions of the connect, probe, query and configure operations. The
//! platform edges (service-manager FFI, the kernel's synchronous-call trap,
//! on-disk artifact checks, dialog presentation) live outside it and drive
//! these functions with plain values.

pub mod codec;
pub mod session;
pub mod status;
