//! Integer and boolean decision variables.

pub mod intvar;
