pub mod commands;
pub mod printer;
pub mod raster;
