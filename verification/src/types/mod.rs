pub mod credentials;
pub mod synthesize;
