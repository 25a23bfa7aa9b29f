//! Safe, verified handles over an intermediate-representation value graph.
//!
//! The graph itself is modelled as an arena of records (`ir::IrModule`); a
//! handle (`values::StructValue`) carries a non-null reference into that
//! arena, and every accessor states exactly what it reads or rewrites.

pub mod ir;
pub mod values;
