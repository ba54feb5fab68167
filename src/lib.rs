//! A three-component vector over the IEEE floating-point widths, with
//! component-wise arithmetic and a squared distance.

pub mod vector;
