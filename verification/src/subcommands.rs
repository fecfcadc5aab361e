pub mod copier;
pub mod ipdf;
pub mod ls;
pub mod restart;
