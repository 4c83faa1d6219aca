//! The HTTP framework capability: servers that a component creates at run
//! time, their route tables, and the bridge from a request to the
//! component's handler.

pub mod event;
pub mod pattern;
pub mod route;
pub mod server;
pub mod model;
pub mod http_framework;

pub use event::HttpEventData;
pub use event::HttpResponse;
pub use http_framework::Dispatch;
pub use http_framework::HttpFramework;
pub use server::ServerInstance;
pub use server::ServerState;
