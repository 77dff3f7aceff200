pub mod entity;
