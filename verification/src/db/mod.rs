pub mod bundlesdb;
