pub mod checksum;
pub mod endian;
pub mod nv;
pub mod phys;
pub mod xdr;
