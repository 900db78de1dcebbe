//! Concrete storage backends for the repositories.

pub mod in_mem_dbs;
