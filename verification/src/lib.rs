//! Core logic of a lightweight hardware-assisted virtual machine monitor:
//! the vCPU lifecycle engine and a virtio-net device model.
//!
//! The crate verifies the decision logic — lifecycle transitions, KVM exit
//! dispatch, CPU topology arithmetic, the virtio-net packet filter, MAC and
//! VLAN tables, the control-queue command handlers, config-space access and
//! the receive/transmit loop decisions.  The surrounding I/O (KVM ioctls,
//! TAP reads and writes, signals, event loops) lives outside the library and
//! feeds it plain values.

pub mod config;
pub mod datapath;
pub mod device;
pub mod errors;
pub mod features;
pub mod filter;
pub mod lifecycle;
pub mod mac_text;
pub mod macpool;
pub mod topology;
pub mod vcpu;

pub use config::{VirtioNetConfig, VirtioNetState};
pub use errors::{CpuError, NetError};
pub use datapath::{RxLoop, TxLoop};
pub use device::{Net, NetConfig};
pub use filter::{CtrlInfo, CtrlRxMode};
pub use lifecycle::CpuLifecycleState;
pub use macpool::MacPool;
pub use topology::CpuTopology;
pub use vcpu::Vcpu;
