pub mod cli;
pub mod convolution;
pub mod simulation;
