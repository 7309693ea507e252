//! Tag kinds of the Named Binary Tag (NBT) format, with checked conversion
//! from raw bytes.

pub mod kind;
