pub mod clock;
pub mod hash;
pub mod jwt;
pub mod validation;
