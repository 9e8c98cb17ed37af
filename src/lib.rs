pub mod pipeline;
pub mod reencode;
pub mod resample;
pub mod visual;
