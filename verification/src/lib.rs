//! Turns an electrical-design netlist into pin constants for firmware.
//!
//! A netlist is an s-expression document that lists the nets, the library
//! parts and the component instances of a schematic. `reader` reads the
//! document from the text of a netlist file, `netlist` joins its three
//! lists into one view of each component, and `codegen` writes a header of
//! constants for one component, so that firmware can name its pins after
//! the nets of the schematic.
//!
//! Every function states what it returns over a mathematical model of its
//! arguments. `guarantees` holds what follows for every netlist.

pub mod args;
pub mod codegen;
pub mod decimal;
pub mod guarantees;
pub mod netlist;
pub mod pattern;
pub mod reader;
pub mod sexpr;
pub mod steps;
pub mod table;
pub mod text;
