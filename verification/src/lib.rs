pub mod load;
pub mod searchapp;
