//! A modal text-editing engine: key tokens stream in, buffer mutations come
//! out, following a Vim-like grammar of modes, motions and operators.

pub mod buffer;
pub mod char_len;
pub mod command;
pub mod context;
pub mod mode;
pub mod motion;
pub mod operator;
pub mod text;
