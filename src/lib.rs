//! Building image and form XObjects and placing them on the pages of an
//! in-memory PDF document.
pub mod content;
pub mod document;
pub mod stream;
pub mod xobject;
