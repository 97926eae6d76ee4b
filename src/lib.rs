#![allow(non_camel_case_types)]

pub mod error;
pub mod text;
pub mod dtype;
pub mod data;
pub mod option;
pub mod options;
pub mod handle;

pub use crate::data::{DataModel, PressioData};
pub use crate::dtype::Dtype;
pub use crate::error::{ErrorState, PressioError};
pub use crate::handle::{Pressio, PressioCompressor};
pub use crate::option::{setter_call, PressioOption, SetterCall};
pub use crate::options::{OptionEntry, PressioOptions};
pub use crate::text::to_native_text;
