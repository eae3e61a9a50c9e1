//! The control plane: the operations that manage shortcuts, on top of a data plane.
pub mod model;
pub mod convert;
pub mod request_id;
pub mod service;
