pub mod cache;
pub mod cstring;
pub mod errors;
pub mod paths;
pub mod report;
pub mod sniff;
