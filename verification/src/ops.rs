pub mod branch;
pub mod csr;
pub mod float;
pub mod math;
pub mod mem;
