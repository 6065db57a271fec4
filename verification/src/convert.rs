//! The conversion of LaTeX to MathML, which the crate `latex2mathml` does.

use vstd::prelude::*;
use crate::error::{outcome, Error, ErrorView};
use crate::parser::{has_answer, parse, parsed, Parsed};
use crate::style::DisplayStyle;
use latex2mathml::LatexError;

verus! {

/// The error type of `latex2mathml`; nothing is known of what one holds.
#[verifier::external_type_specification]
#[verifier::external_body]
pub struct ExLatexError(LatexError);

/// What `latex2mathml` makes of the formula `latex`: the MathML that it
/// writes for it, without the `math` element around it, or the words in
/// which its error says why it refuses the formula.
pub uninterp spec fn mathml_content(latex: Seq<char>) -> Result<Seq<char>, Seq<char>>;

/// The word that stands for `style` in the attribute `display`.
pub open spec fn display_word(style: DisplayStyle) -> Seq<char> {
    match style {
        DisplayStyle::Block => "block"@,
        DisplayStyle::Inline => "inline"@,
    }
}

/// The `math` element that holds `content` and is displayed in `style`.
pub open spec fn markup(style: DisplayStyle, content: Seq<char>) -> Seq<char> {
    "<math xmlns=\"http://www.w3.org/1998/Math/MathML\" display=\""@ + display_word(style)
        + "\">"@ + content + "</math>"@
}

/// Calls `latex2mathml::latex_to_mathml`. Believed of it, not proved: it
/// parses `latex` and returns either what it wrote for the formula, inside
/// a `math` element whose attribute `display` is `block` or `inline` after
/// the style, or an error; what it wrote, whether it fails and what the
/// error says of itself when it is displayed depend on `latex` alone. Its
/// parser panics where it comes to a `\middle` and the node that it parses
/// behind it is no operator; `has_answer` follows the parser through the
/// formula and leaves out the formulas on which it comes to that.
#[verifier::external_body]
fn latex_to_mathml(latex: &str, style: DisplayStyle) -> (outcome: Result<String, LatexError>)
    requires
        has_answer(latex@),
    ensures
        match outcome {
            Ok(mathml) => mathml_content(latex@) matches Ok(content) && mathml@ == markup(
                style,
                content,
            ),
            Err(error) => mathml_content(latex@) matches Err(report) && forall|said: String|
                #[trigger] vstd::string::to_string_from_display_ensures(&error, said) ==> said@
                    == report,
        },
{
    let display = match style {
        DisplayStyle::Block => latex2mathml::DisplayStyle::Block,
        DisplayStyle::Inline => latex2mathml::DisplayStyle::Inline,
    };
    latex2mathml::latex_to_mathml(latex, display)
}

/// Whether `result` is what the outcome `outcome` of the converter becomes:
/// its markup as it is, and its error as the cause of a conversion error.
pub open spec fn chains(outcome: Result<String, LatexError>, result: Result<String, Error>) -> bool {
    match outcome {
        Ok(mathml) => result matches Ok(markup) && markup@ == mathml@,
        Err(error) => result matches Err(Error::Conversion { cause })
            && vstd::string::to_string_from_display_ensures(&error, cause),
    }
}

/// Turns what the converter returned into the result of the call: the
/// markup as it is, an error with its description as the cause.
pub fn chain_conversion(outcome: Result<String, LatexError>) -> (result: Result<String, Error>)
    ensures
        chains(outcome, result),
{
    match outcome {
        Ok(mathml) => Ok(mathml),
        Err(error) => Err(Error::Conversion { cause: error.to_string() }),
    }
}

/// What rendering `text` in `style` gives: the markup that the converter
/// makes of it, or the error with which it refuses it. A formula on which
/// the converter stops is not handed to it.
pub open spec fn rendered(text: Seq<char>, style: DisplayStyle) -> Result<Seq<char>, ErrorView> {
    if parsed(text) is Stops {
        Err(ErrorView::Unsupported)
    } else {
        match mathml_content(text) {
            Ok(content) => Ok(markup(style, content)),
            Err(report) => Err(ErrorView::Conversion { cause: report }),
        }
    }
}

/// Whether `result` is what rendering `text` in `style` gives.
pub open spec fn renders(text: Seq<char>, style: DisplayStyle, result: Result<String, Error>) -> bool {
    outcome(result) == rendered(text, style)
}

/// Converts `text` to markup in `style`. A formula on which the converter
/// stops is refused without asking it.
pub fn render(text: &str, style: DisplayStyle) -> (result: Result<String, Error>)
    ensures
        outcome(result) == rendered(text@, style),
{
    match parse(text) {
        Parsed::Node(_) | Parsed::Fails => chain_conversion(latex_to_mathml(text, style)),
        _ => Err(Error::Unsupported),
    }
}

/// Rendering is determined by the text and the style: two results of
/// rendering the same text in the same style hold the same markup, or the
/// same error with the same cause.
pub proof fn rendering_is_determined(
    text: Seq<char>,
    style: DisplayStyle,
    first: Result<String, Error>,
    second: Result<String, Error>,
)
    requires
        renders(text, style, first),
        renders(text, style, second),
    ensures
        outcome(first) == outcome(second),
{
}

} // verus!
