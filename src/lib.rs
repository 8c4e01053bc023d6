//! Validation rules of a library of closed-form formulas for the areas,
//! perimeters, surface areas and volumes of common shapes.
//!
//! Measurements are IEEE-754 double-precision values. The verified part of
//! the library sees each one as its bit pattern (`Measure`) and decides, from
//! those patterns alone, whether a set of measurements describes a valid
//! shape and, if not, which `GeometryError` the caller gets.
pub mod error;
pub mod measure;
pub mod rules;
pub mod laws;

pub use error::GeometryError;
pub use measure::Measure;
pub use rules::{
    check_all_positive, check_angle, check_annulus, check_polygon, check_positive, check_sector,
    check_triangle,
};
