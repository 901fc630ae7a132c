pub mod dynu;
pub mod netutils;
pub mod reconcile;
