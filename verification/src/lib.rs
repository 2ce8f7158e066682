//! Verified core of a small demo web application.
//!
//! The application itself is a tree of UI components wired to a client-side
//! router; that wiring lives outside this library. What the library holds is
//! everything the application decides on its own: the constant values its
//! server stubs hand out, the route table its router is built from, and the
//! links its pages render.

pub mod routes;
pub mod stubs;
