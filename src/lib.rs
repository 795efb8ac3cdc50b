//! A small request-dispatch core: units that take a request and give a
//! response, handlers that draw typed values out of a request before they
//! run, exact routes by method and path, and a "not found" unit at the end
//! of every dispatch.

pub mod message;
pub mod service;
pub mod extract;
pub mod handler;
pub mod route;
