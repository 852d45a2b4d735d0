pub mod interaction_create;
