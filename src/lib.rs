//! Assignment of audio ports to logical mixer outputs: the port catalog,
//! the editable per-output state and the controller that keeps it in step
//! with the mixer-configuration service.

pub mod application;
pub mod outputs;
pub mod ports;

pub use application::{App, AppError, AppFlags, AppMessage, Command};
pub use outputs::{MixerOutput, PmxOutput, UpdateOutputPortAssignmentsRequest};
pub use ports::{partition_ports, ListPort, PortCatalog, PortDirection};
