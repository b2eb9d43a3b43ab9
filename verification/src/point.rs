//! A plain two-dimensional point with the field layout of its C
//! counterpart in the driver bindings it mirrors.

use vstd::prelude::*;

verus! {

/// A point: signed 64-bit x and y coordinates. Equality is structural.
#[allow(non_camel_case_types)]
#[derive(Debug, Copy, Clone, Eq, PartialEq, Structural)]
pub struct point_t {
    pub x: i64,
    pub y: i64,
}

} // verus!
