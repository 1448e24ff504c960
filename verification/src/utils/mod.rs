pub mod clock;
pub mod random;
pub mod report;
pub mod scheduler;
