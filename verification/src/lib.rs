pub mod text;
pub mod strmap;
pub mod codec;
pub mod preprocess;
pub mod scanner;
pub mod macros;
pub mod options;
pub mod model;
pub mod config;
pub mod dataproc;
pub mod workflow;
pub mod scheduler;
pub mod checks;
pub mod snapshot;
pub mod provider;
pub mod validate;
pub mod resolver;
pub mod diffs;
pub mod ident;
pub mod jobflow;
pub mod modelflow;
pub mod props;
pub mod jobprops;
pub mod dbtprops;
