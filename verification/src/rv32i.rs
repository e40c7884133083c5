//! The base integer instruction set: control transfers, integer
//! computation, loads and stores, and the system operations.

pub mod control_transfer;
pub mod int_compute;
pub mod load_store;
pub mod system;

pub use self::control_transfer::{Branch, BranchType, Jal, Jalr};
pub use self::int_compute::{Auipc, ImmediateOperationType, Lui, Op, OpImm, OperationType};
pub use self::load_store::{Load, LoadType, Store, StoreType};
pub use self::system::{Fence, System, SystemType};
