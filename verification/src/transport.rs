pub mod discovery;
pub mod framing;
pub mod subprocess;

pub use discovery::CliDiscovery;
pub use subprocess::SubprocessCLITransport;
