//! A registry of call routers for contracts simulated inside one test process.

pub mod address;
pub mod dispatch;
pub mod error;
pub mod key;
pub mod laws;
pub mod model;
pub mod registry;
pub mod table;

pub use dispatch::{CreateRouter, Handler, Router, RouterFactory, VMRouterStorage};
pub use error::RouterError;
pub use key::VMRouter;
pub use registry::Registry;
