pub mod authenticate;
pub mod authorize;
pub mod login;
pub mod new;
pub mod refresh;
