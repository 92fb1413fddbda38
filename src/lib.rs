//! A local reverse proxy core: value objects for the processes it manages,
//! route matching, address derivation, the request/response envelope carried
//! over a transport, the process supervisor's bookkeeping, and the proxy
//! orchestration with its optional response cache.
pub mod text;
pub mod entities;
pub mod address;
pub mod errors;
pub mod codec;
pub mod config;
pub mod proxy;
pub mod supervisor;
pub mod services;
pub mod cache;
pub mod use_cases;
pub mod pipes;
pub mod transport;
