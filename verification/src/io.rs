pub mod bit;
