pub mod cfg;
pub mod command;
pub mod config;
pub mod model;
pub mod numbers;
pub mod paths;
pub mod repo;
pub mod revision;
pub mod scripts;
pub mod status;
pub mod store;
pub mod tail;
pub mod tailer;
pub mod text;
pub mod web_cfg;
pub mod worker;

pub use config::Component;
pub use config::WorkerConfig;
pub use model::Build;
pub use model::Input;
pub use model::InputOutputs;
pub use model::Output;
pub use status::BuildStatus;
pub use store::BuildStore;
pub use tail::LenSpec;
