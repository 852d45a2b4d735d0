pub mod channels;
pub mod goal;
