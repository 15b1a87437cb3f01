//! Search support for native heap-allocator tuning: encoding of candidate
//! configurations, per-instance port allocation, instance planning, and the
//! reduction of process-listing output to a single memory score.

pub mod instance;
pub mod load;
pub mod malloc_conf;
pub mod memory;
pub mod port;
pub mod probe;
pub mod text;

pub use instance::{container_name, get_name, instance_env, plan_instance, volume_binds, InstancePlan};
pub use malloc_conf::{check_genes, tuning_string, Dss, MallocConf};
pub use memory::{fitness_value, score, MemoryStats};
pub use port::PortPool;
pub use probe::{memory_from_listing, LinePatterns, MemoryScan, RoleValues};
pub use text::decimal_string;
