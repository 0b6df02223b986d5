//! A verified binding layer over the `yaml-edit` lossless YAML editor.
//!
//! The types here (`PyDocument`, `PyYamlFile`, `PyMapping`, `PySequence`,
//! `PyScalar`, `PyNode`) are the objects that the Python extension module
//! hands out. Each holds a handle into a `yaml-edit` syntax tree; the tree is
//! shared and mutated through any handle (the editor uses interior
//! mutability), so the contracts here speak of the decisions this layer makes
//! and of the values it builds, not of the tree's contents.

pub mod outside;
pub mod error;
pub mod text;
pub mod scalar_arg;
pub mod node;
pub mod scalar;
pub mod mapping;
pub mod sequence;
pub mod document;
pub mod stream;
pub mod merged;
