pub mod cget;
