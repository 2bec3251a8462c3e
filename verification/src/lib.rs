//! A terminal mail client's core: a modal compose editor with vim-style
//! motions over three text fields, together with the plain data the
//! surrounding program exchanges with it.

pub mod app;
pub mod backend;
pub mod cli;
pub mod position;
pub mod strutil;

