pub mod message;
