pub mod anonimo;
pub mod canal;
pub mod definircanais;
pub mod definircanal;
pub mod definirmeta;
pub mod info;
pub mod meta;
pub mod setcanais;
pub mod setmeta;
