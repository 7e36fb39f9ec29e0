pub use crate::posts::post::Post;
