pub mod time_math;
pub mod scheduler;
