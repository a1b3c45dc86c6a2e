//! Host-acceleration boundary for the SP1 zkVM.
//!
//! The library holds the catalog of accelerated-operation identifiers, the
//! calling convention that hands an identifier and up to two operand words
//! to the host environment, and a model of operand memory that states — and
//! where the operation runs locally, implements — what each dispatch does
//! to the bytes the operands point at.

pub mod bn254;
pub mod dispatch;
pub mod memory;
