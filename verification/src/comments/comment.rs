pub use crate::driver::comment::Comment;
