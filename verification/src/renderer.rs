//! The callable itself: from the arguments of one call and the site's
//! configuration to the markup of the formula.

use vstd::prelude::*;
use crate::config::Config;
use crate::convert::{render, renders};
use crate::error::{ArgName, Error, ErrorView};
use crate::source::{source_of, DataSource, DataSourceView};
use crate::style::{effective_style, resolve_style, DisplayStyle};
use crate::value::{Table, Value, ValueView};

verus! {

/// The text that `args` holds for the argument `name`: none where the
/// argument is missing, and an error where it is given and is no text.
pub open spec fn argument_text(args: Map<Seq<char>, ValueView>, name: ArgName) -> Result<
    Option<Seq<char>>,
    ErrorView,
> {
    if !args.contains_key(name.key()) {
        Ok(None)
    } else {
        match args[name.key()] {
            ValueView::Text(text) => Ok(Some(text)),
            ValueView::Other => Err(ErrorView::Type(name)),
        }
    }
}

/// What a call with the arguments `args` on a site with the settings `extra`
/// asks for: a source and a style. The three arguments are held to be text
/// first, `path`, `literal` and `style` in this order; then the source is
/// chosen.
pub open spec fn request(args: Map<Seq<char>, ValueView>, extra: Map<Seq<char>, ValueView>) -> Result<
    (DataSourceView, DisplayStyle),
    ErrorView,
> {
    match argument_text(args, ArgName::Path) {
        Err(error) => Err(error),
        Ok(path) => match argument_text(args, ArgName::Literal) {
            Err(error) => Err(error),
            Ok(literal) => match argument_text(args, ArgName::Style) {
                Err(error) => Err(error),
                Ok(style) => match source_of(path, literal) {
                    None => Err(ErrorView::Argument),
                    Some(source) => Ok((source, effective_style(style, extra))),
                },
            },
        },
    }
}

/// Whether `result` is what a call gives whose source is the file at `path`
/// and whose style is `style`, where reading the file gave `file`.
pub open spec fn renders_file(
    file: Result<String, String>,
    style: DisplayStyle,
    result: Result<String, Error>,
) -> bool {
    match file {
        Ok(text) => renders(text@, style, result),
        Err(cause) => result matches Err(error) && error@ == (ErrorView::FileRead {
            cause: cause@,
        }),
    }
}

/// Takes the argument `name` out of `args` as text.
pub fn optional_text(args: &Table, name: ArgName) -> (result: Result<Option<String>, Error>)
    ensures
        match argument_text(args@, name) {
            Ok(Some(text)) => result matches Ok(Some(found)) && found@ == text,
            Ok(None) => result matches Ok(None),
            Err(error) => result matches Err(found) && found@ == error,
        },
{
    match args.get(name.as_str()) {
        Some(Value::Text(text)) => Ok(Some(text.clone())),
        Some(Value::Other) => Err(Error::Type(name)),
        None => Ok(None),
    }
}

/// The callable `mathtex` of one site.
#[derive(Clone, Debug)]
pub struct MathTeX {
    config: Config,
}

impl MathTeX {
    /// The settings of the site that the callable was made for.
    pub closed spec fn extra(&self) -> Map<Seq<char>, ValueView> {
        self.config.extra@
    }

    /// The callable of the site with the configuration `config`.
    pub fn new(config: Config) -> (function: MathTeX)
        ensures
            function.extra() == config.extra@,
    {
        MathTeX { config }
    }

    /// Renders the formula that `args` names. `read_file` reads the file of
    /// a `path` argument; it is called at most once, and only after the
    /// arguments were found in order.
    pub fn call<F: FnOnce(String) -> Result<String, String>>(&self, args: &Table, read_file: F) -> (result:
        Result<String, Error>)
        requires
            forall|path: String| #[trigger] read_file.requires((path,)),
        ensures
            match request(args@, self.extra()) {
                Err(error) => result matches Err(found) && found@ == error,
                Ok((DataSourceView::Literal(text), style)) => renders(text, style, result),
                Ok((DataSourceView::Path(name), style)) => exists|
                    path: String,
                    file: Result<String, String>,
                |
                    path@ == name && #[trigger] read_file.ensures((path,), file) && renders_file(
                        file,
                        style,
                        result,
                    ),
            },
    {
        let path = optional_text(args, ArgName::Path)?;
        let literal = optional_text(args, ArgName::Literal)?;
        let style = optional_text(args, ArgName::Style)?;
        let source = DataSource::from_args(path, literal)?;
        let latex = source.read(read_file)?;
        let style = match &style {
            Some(name) => resolve_style(Some(name.as_str()), &self.config),
            None => resolve_style(None, &self.config),
        };
        render(latex.as_str(), style)
    }
}

/// A call that names one source, and whose arguments are text, asks for
/// that source and for the style that its argument and the settings give.
pub proof fn one_source_is_accepted(
    args: Map<Seq<char>, ValueView>,
    extra: Map<Seq<char>, ValueView>,
)
    requires
        argument_text(args, ArgName::Path) is Ok,
        argument_text(args, ArgName::Literal) is Ok,
        argument_text(args, ArgName::Style) is Ok,
        args.contains_key("path"@) != args.contains_key("literal"@),
    ensures
        request(args, extra) matches Ok((source, style)) && style == effective_style(
            argument_text(args, ArgName::Style)->Ok_0,
            extra,
        ) && source == (if args.contains_key("path"@) {
            DataSourceView::Path(args["path"@]->Text_0)
        } else {
            DataSourceView::Literal(args["literal"@]->Text_0)
        }),
{
}

/// A call that names no source, or two, is refused for that, provided that
/// its arguments are text.
pub proof fn none_or_both_is_refused(
    args: Map<Seq<char>, ValueView>,
    extra: Map<Seq<char>, ValueView>,
)
    requires
        argument_text(args, ArgName::Path) is Ok,
        argument_text(args, ArgName::Literal) is Ok,
        argument_text(args, ArgName::Style) is Ok,
        args.contains_key("path"@) == args.contains_key("literal"@),
    ensures
        request(args, extra) == Err::<(DataSourceView, DisplayStyle), _>(ErrorView::Argument),
{
}

/// The style of a call is the one that its argument and the settings give:
/// the argument where there is one, whatever the settings hold.
pub proof fn style_argument_comes_first(
    args: Map<Seq<char>, ValueView>,
    extra: Map<Seq<char>, ValueView>,
    other: Map<Seq<char>, ValueView>,
)
    requires
        args.contains_key("style"@),
    ensures
        request(args, extra) == request(args, other),
{
}

} // verus!
