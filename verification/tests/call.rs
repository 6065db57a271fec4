use mathtex::{ArgName, Config, Error, MathTeX, Table, Value};

const OPEN_BLOCK: &str = "<math xmlns=\"http://www.w3.org/1998/Math/MathML\" display=\"block\">";
const OPEN_INLINE: &str = "<math xmlns=\"http://www.w3.org/1998/Math/MathML\" display=\"inline\">";

fn text(s: &str) -> Value {
    Value::Text(s.to_string())
}

fn table(entries: &[(&str, Value)]) -> Table {
    let mut table = Table::new();
    for (key, value) in entries {
        table.insert(key.to_string(), value.clone());
    }
    table
}

fn site(entries: &[(&str, Value)]) -> MathTeX {
    MathTeX::new(Config { extra: table(entries) })
}

fn no_file(path: String) -> Result<String, String> {
    panic!("no file should be read, but {path} was asked for")
}

#[test]
fn literal_with_block_style_gives_block_markup() {
    let args = table(&[("literal", text("x^2")), ("style", text("block"))]);
    let markup = site(&[]).call(&args, no_file).unwrap();
    assert_eq!(markup, format!("{OPEN_BLOCK}<msup><mi>x</mi><mn>2</mn></msup></math>"));
}

#[test]
fn literal_without_any_style_gives_inline_markup() {
    let args = table(&[("literal", text("x^2"))]);
    let markup = site(&[]).call(&args, no_file).unwrap();
    assert_eq!(markup, format!("{OPEN_INLINE}<msup><mi>x</mi><mn>2</mn></msup></math>"));
}

#[test]
fn missing_file_gives_read_error_with_its_cause() {
    let args = table(&[("path", text("missing.tex"))]);
    let error = site(&[])
        .call(&args, |path| {
            assert_eq!(path, "missing.tex");
            Err("No such file or directory (os error 2)".to_string())
        })
        .unwrap_err();
    assert_eq!(
        error,
        Error::FileRead { cause: "No such file or directory (os error 2)".to_string() }
    );
    assert_eq!(error.message(), "Failed to read file");
    assert_eq!(error.cause().unwrap(), "No such file or directory (os error 2)");
}

#[test]
fn no_arguments_give_argument_error() {
    let error = site(&[]).call(&Table::new(), no_file).unwrap_err();
    assert_eq!(error, Error::Argument);
    assert_eq!(
        error.message(),
        "`mathtex` requires either a `path` or a `literal` argument."
    );
    assert!(error.cause().is_none());
}

#[test]
fn both_sources_give_the_same_argument_error() {
    let args = table(&[("path", text("formula.tex")), ("literal", text("x"))]);
    assert_eq!(site(&[]).call(&args, no_file).unwrap_err(), Error::Argument);
}

#[test]
fn configured_block_style_applies_without_argument() {
    let args = table(&[("literal", text("\\frac{1}{2}"))]);
    let markup = site(&[("style", text("Block"))]).call(&args, no_file).unwrap();
    assert_eq!(
        markup,
        format!("{OPEN_BLOCK}<mfrac><mn>1</mn><mn>2</mn></mfrac></math>")
    );
}

#[test]
fn style_argument_overrides_configuration() {
    let args = table(&[("literal", text("x")), ("style", text("inline"))]);
    let markup = site(&[("style", text("block"))]).call(&args, no_file).unwrap();
    assert_eq!(markup, format!("{OPEN_INLINE}<mi>x</mi></math>"));

    let args = table(&[("literal", text("x")), ("style", text("Block"))]);
    let markup = site(&[("style", text("inline"))]).call(&args, no_file).unwrap();
    assert_eq!(markup, format!("{OPEN_BLOCK}<mi>x</mi></math>"));
}

#[test]
fn unrecognised_style_argument_is_inline() {
    for name in ["", "BLOCK", "blocks", " block", "display"] {
        let args = table(&[("literal", text("x")), ("style", text(name))]);
        let markup = site(&[("style", text("block"))]).call(&args, no_file).unwrap();
        assert_eq!(markup, format!("{OPEN_INLINE}<mi>x</mi></math>"));
    }
}

#[test]
fn configured_style_that_is_no_text_is_inline() {
    let args = table(&[("literal", text("x"))]);
    let markup = site(&[("style", Value::Other)]).call(&args, no_file).unwrap();
    assert_eq!(markup, format!("{OPEN_INLINE}<mi>x</mi></math>"));
}

#[test]
fn path_is_read_and_converted() {
    let args = table(&[("path", text("formula.tex")), ("style", text("block"))]);
    let markup = site(&[])
        .call(&args, |path| {
            assert_eq!(path, "formula.tex");
            Ok("x^2".to_string())
        })
        .unwrap();
    assert_eq!(markup, format!("{OPEN_BLOCK}<msup><mi>x</mi><mn>2</mn></msup></math>"));
}

#[test]
fn arguments_that_are_no_text_give_type_errors() {
    let cases = [
        ("path", ArgName::Path, "`mathtex`: `path` must be a string."),
        ("literal", ArgName::Literal, "`mathtex`: `literal` must be a string."),
        ("style", ArgName::Style, "`mathtex`: `style` must be a string."),
    ];
    for (key, name, message) in cases {
        let mut args = table(&[("literal", text("x"))]);
        args.insert(key.to_string(), Value::Other);
        let error = site(&[]).call(&args, no_file).unwrap_err();
        assert_eq!(error, Error::Type(name));
        assert_eq!(error.message(), message);
    }
}

#[test]
fn type_errors_come_before_the_argument_error() {
    let args = table(&[("style", Value::Other)]);
    assert_eq!(site(&[]).call(&args, no_file).unwrap_err(), Error::Type(ArgName::Style));
    let args = table(&[("path", Value::Other), ("literal", Value::Other)]);
    assert_eq!(site(&[]).call(&args, no_file).unwrap_err(), Error::Type(ArgName::Path));
}

#[test]
fn converter_failure_gives_conversion_error_with_its_cause() {
    let args = table(&[("literal", text("\\begin{foo} x \\end{foo}"))]);
    let error = site(&[]).call(&args, no_file).unwrap_err();
    assert_eq!(
        error,
        Error::Conversion { cause: "An unknown environment \"foo\" is found".to_string() }
    );
    assert_eq!(error.message(), "Failed to convert LaTeX to MathTeX");
}

#[test]
fn same_literal_and_style_give_the_same_markup() {
    let function = site(&[("style", text("block"))]);
    let args = table(&[("literal", text("\\sqrt{a + b}"))]);
    let first = function.call(&args, no_file);
    let second = function.call(&args, no_file);
    assert!(first.is_ok());
    assert_eq!(first, second);
}

#[test]
fn unknown_arguments_are_ignored() {
    let args = table(&[("literal", text("x")), ("colour", Value::Other)]);
    let markup = site(&[]).call(&args, no_file).unwrap();
    assert_eq!(markup, format!("{OPEN_INLINE}<mi>x</mi></math>"));
}
