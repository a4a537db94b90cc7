//! A native extension module that greets: its contents, and the steps that
//! set them up on the host interpreter's module object.
pub mod module;
pub mod registration;
