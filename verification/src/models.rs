//! Model families as the command line names them: arguments in, request
//! body out, reply rendered.

pub mod amazon;
