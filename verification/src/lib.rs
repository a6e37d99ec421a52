//! Decoders for the binary Java `.class` file format and for the JVM bytecode
//! instruction stream found in a method's `Code` attribute.
//!
//! The crate is a pure, in-memory decoding layer: callers hand it a byte
//! buffer and receive typed values (a constant pool, a class structure, a
//! sequence of instructions) or a [`fault::Fault`].  Every decoder is
//! specified against a mathematical model of the format and verified.

pub mod attributes;
pub mod clazz;
pub mod const_pool;
pub mod cursor;
pub mod enum_constants;
pub mod fault;
pub mod fields;
pub mod javautf8;
pub mod jop;
pub mod methods;
pub mod ops;
pub mod opspec;
pub mod reader;
