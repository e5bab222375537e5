//! Register-mapped hardware control layer for a programmable-logic
//! data-acquisition pipeline.
//!
//! The crate is built leaf-first. [`window::MemoryMap`] gives bounds-checked
//! 32-bit register access over a fixed-size mapped physical-address range,
//! modeled as the byte sequence of the mapped region ([`words`] defines the
//! little-endian word model and its laws). [`notify::NotificationHandle`]
//! models an edge-triggered event source with an explicit re-arm protocol.
//! On top of those stand the device controllers — the DMA engine
//! ([`dma::DmaController`]), the capture-gate/front-end controller
//! ([`gate::ConfigController`]), the acquisition trigger
//! ([`acq::AcqController`]), the readback memory scanner
//! ([`memory::MemoryController`]) and the one-shot platform clock
//! initializer ([`slcr::SlcrController`]) — each owning exactly one window.
//! [`sequence`] composes them into the configure → arm → gate → wait → read
//! capture protocol, and [`orchestrator::Orchestrator`] types that protocol
//! as a phase machine, so that illegal call ordering is a verification
//! error rather than a latent hardware hazard.
//!
//! Process-level concerns (opening the physical-memory device, mapping the
//! device windows, blocking on the interrupt event files) live outside this
//! crate; callers hand the finished mappings in and mirror each observed
//! interrupt edge into the notification model.

pub mod acq;
pub mod dma;
pub mod errors;
pub mod gate;
pub mod mapping;
pub mod memory;
pub mod notify;
pub mod orchestrator;
pub mod sequence;
pub mod slcr;
pub mod window;
pub mod words;

pub use acq::AcqController;
pub use dma::DmaController;
pub use dma::DmaStatus;
pub use errors::DriverError;
pub use gate::ConfigController;
pub use memory::MemoryController;
pub use notify::NotificationHandle;
pub use orchestrator::Orchestrator;
pub use sequence::CaptureReport;
pub use slcr::SlcrController;
pub use window::MemoryMap;
