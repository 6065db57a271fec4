//! Rendering of LaTeX math for a template engine: the callable `mathtex` takes
//! its source from a literal or a file, picks the display style from its
//! arguments or the site configuration, and hands both to the converter.

pub mod config;
pub mod convert;
pub mod error;
pub mod lexer;
pub mod parser;
pub mod renderer;
pub mod source;
pub mod style;
pub mod token;
pub mod value;

pub use config::Config;
pub use convert::{chain_conversion, render};
pub use error::{ArgName, Error, ErrorView};
pub use parser::{parse, Parsed};
pub use renderer::{optional_text, MathTeX};
pub use source::{chain_read, DataSource, DataSourceView};
pub use style::{get_default_style, resolve_style, style_from_name, DisplayStyle};
pub use value::{Table, Value, ValueView};
