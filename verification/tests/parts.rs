use latex2mathml::LatexError;
use mathtex::{
    chain_conversion, chain_read, get_default_style, optional_text, parse, render, resolve_style, style_from_name, ArgName, Config, DataSource, DisplayStyle, Error,
    Parsed, Table, Value,
};

fn text(s: &str) -> Value {
    Value::Text(s.to_string())
}

#[test]
fn table_binds_the_last_value() {
    let mut table = Table::new();
    assert!(table.get("style").is_none());
    table.insert("style".to_string(), text("block"));
    table.insert("other".to_string(), Value::Other);
    assert_eq!(table.get("style"), Some(&text("block")));
    assert_eq!(table.get("other"), Some(&Value::Other));
    table.insert("style".to_string(), text("inline"));
    assert_eq!(table.get("style"), Some(&text("inline")));
    assert!(table.get("styl").is_none());
    assert!(table.get("").is_none());
}

#[test]
fn style_names() {
    assert_eq!(style_from_name("block"), DisplayStyle::Block);
    assert_eq!(style_from_name("Block"), DisplayStyle::Block);
    assert_eq!(style_from_name("BLOCK"), DisplayStyle::Inline);
    assert_eq!(style_from_name("inline"), DisplayStyle::Inline);
    assert_eq!(style_from_name(""), DisplayStyle::Inline);
    assert_eq!(style_from_name("bloc"), DisplayStyle::Inline);
    assert_eq!(DisplayStyle::default(), DisplayStyle::Inline);
}

#[test]
fn default_style_from_settings() {
    let mut extra = Table::new();
    assert_eq!(get_default_style(&extra), DisplayStyle::Inline);
    extra.insert("style".to_string(), Value::Other);
    assert_eq!(get_default_style(&extra), DisplayStyle::Inline);
    extra.insert("style".to_string(), text("Block"));
    assert_eq!(get_default_style(&extra), DisplayStyle::Block);
    extra.insert("style".to_string(), text("wide"));
    assert_eq!(get_default_style(&extra), DisplayStyle::Inline);
}

#[test]
fn style_precedence() {
    let mut extra = Table::new();
    extra.insert("style".to_string(), text("block"));
    let block = Config { extra };
    let plain = Config { extra: Table::new() };
    assert_eq!(resolve_style(Some("block"), &plain), DisplayStyle::Block);
    assert_eq!(resolve_style(Some("Block"), &block), DisplayStyle::Block);
    assert_eq!(resolve_style(Some("typo"), &block), DisplayStyle::Inline);
    assert_eq!(resolve_style(Some(""), &block), DisplayStyle::Inline);
    assert_eq!(resolve_style(None, &block), DisplayStyle::Block);
    assert_eq!(resolve_style(None, &plain), DisplayStyle::Inline);
}

#[test]
fn source_from_arguments() {
    assert_eq!(
        DataSource::from_args(Some("a.tex".to_string()), None),
        Ok(DataSource::Path("a.tex".to_string()))
    );
    assert_eq!(
        DataSource::from_args(None, Some("x".to_string())),
        Ok(DataSource::Literal("x".to_string()))
    );
    assert_eq!(DataSource::from_args(None, None), Err(Error::Argument));
    assert_eq!(
        DataSource::from_args(Some("a.tex".to_string()), Some("x".to_string())),
        Err(Error::Argument)
    );
}

#[test]
fn literal_source_reads_no_file() {
    let source = DataSource::Literal("a + b".to_string());
    let read = source.read(|_| panic!("a literal has no file"));
    assert_eq!(read, Ok("a + b".to_string()));
}

#[test]
fn path_source_reads_its_file() {
    let source = DataSource::Path("dir/a.tex".to_string());
    let read = source.read(|path| Ok(format!("read from {path}")));
    assert_eq!(read, Ok("read from dir/a.tex".to_string()));
    let source = DataSource::Path("dir/a.tex".to_string());
    let read = source.read(|_| Err("permission denied".to_string()));
    assert_eq!(read, Err(Error::FileRead { cause: "permission denied".to_string() }));
}

#[test]
fn read_outcomes_are_chained() {
    assert_eq!(chain_read(Ok("x".to_string())), Ok("x".to_string()));
    assert_eq!(
        chain_read(Err("gone".to_string())),
        Err(Error::FileRead { cause: "gone".to_string() })
    );
}

#[test]
fn converter_outcomes_are_chained() {
    assert_eq!(chain_conversion(Ok("<math/>".to_string())), Ok("<math/>".to_string()));
    let error = chain_conversion(Err(LatexError::InvalidNumberOfDollarSigns)).unwrap_err();
    assert_eq!(
        error,
        Error::Conversion { cause: "The number of dollar sings found is invalid.".to_string() }
    );
    assert_eq!(error.cause().unwrap(), "The number of dollar sings found is invalid.");
}

#[test]
fn arguments_as_text() {
    let mut args = Table::new();
    args.insert("path".to_string(), text("a.tex"));
    args.insert("style".to_string(), Value::Other);
    assert_eq!(optional_text(&args, ArgName::Path), Ok(Some("a.tex".to_string())));
    assert_eq!(optional_text(&args, ArgName::Literal), Ok(None));
    assert_eq!(optional_text(&args, ArgName::Style), Err(Error::Type(ArgName::Style)));
    assert_eq!(ArgName::Path.as_str(), "path");
    assert_eq!(ArgName::Literal.as_str(), "literal");
    assert_eq!(ArgName::Style.as_str(), "style");
}

#[test]
fn conversion_matches_the_converter() {
    for latex in ["x^2", "\\frac{1}{2}", "", "a \\le b", "\\left( a \\middle| b \\right)"] {
        let block = latex2mathml::latex_to_mathml(latex, latex2mathml::DisplayStyle::Block);
        let inline = latex2mathml::latex_to_mathml(latex, latex2mathml::DisplayStyle::Inline);
        assert_eq!(render(latex, DisplayStyle::Block).unwrap(), block.unwrap());
        assert_eq!(render(latex, DisplayStyle::Inline).unwrap(), inline.unwrap());
    }
}

#[test]
fn conversion_changes_the_text() {
    let markup = render("x", DisplayStyle::Inline).unwrap();
    assert_ne!(markup, "x");
    assert_eq!(
        markup,
        "<math xmlns=\"http://www.w3.org/1998/Math/MathML\" display=\"inline\"><mi>x</mi></math>"
    );
}

#[test]
fn empty_text_gives_an_empty_element() {
    assert_eq!(
        render("", DisplayStyle::Block).unwrap(),
        "<math xmlns=\"http://www.w3.org/1998/Math/MathML\" display=\"block\"></math>"
    );
}

#[test]
fn refused_formula_gives_conversion_error() {
    let error = render("\\left x", DisplayStyle::Inline).unwrap_err();
    assert!(matches!(error, Error::Conversion { .. }));
    let error = render("{ x", DisplayStyle::Inline).unwrap_err();
    assert!(matches!(error, Error::Conversion { .. }));
}

#[test]
fn refused_formula_keeps_the_converter_s_words() {
    for latex in ["\\left x", "{ x", "\\begin{foo} x \\end{foo}", "{ \\middle +", "\\left( a \\middle| b"] {
        let said = latex2mathml::latex_to_mathml(latex, latex2mathml::DisplayStyle::Inline)
            .unwrap_err()
            .to_string();
        assert!(!said.is_empty());
        let error = render(latex, DisplayStyle::Inline).unwrap_err();
        assert_eq!(error, Error::Conversion { cause: said });
    }
}

fn converted(latex: &str, style: latex2mathml::DisplayStyle) -> Result<String, Error> {
    latex2mathml::latex_to_mathml(latex, style)
        .map_err(|error| Error::Conversion { cause: error.to_string() })
}

#[test]
fn middle_with_an_operator_gives_markup() {
    let formulas = [
        "\\left( a \\middle| b \\right)",
        "\\left( a \\middle \n\t | b \\right)",
        "\\middle) \\middle/ \\middle. \\middle< \\middle> \\middle[ \\middle]",
        "\\middle= \\middle; \\middle, \\middle+ \\middle- \\middle* \\middle! \\middle'",
        "\\middle +",
        "\\middle: \\middle:= \\middle : x",
        "\\middle\\|",
        "\\middle\\{ \\middle\\}",
        "\\left\\{ a \\middle\\} b \\right.",
        "\\middle\\langle a \\middle \\rangle",
        "\\middle\\times",
        "\\middle\\sum \\middle\\int x",
        "\\middle{|}",
        "\\middle{\\sum}",
        "\\middle\\mathrm|",
        "\\middle\\mathrm{+}",
        "\\alpha\\middle|",
        "é\\middle(ü",
    ];
    for latex in formulas {
        assert_eq!(parse(latex), Parsed::Node(false), "{latex}");
        let expected = latex2mathml::latex_to_mathml(latex, latex2mathml::DisplayStyle::Block);
        assert_eq!(render(latex, DisplayStyle::Block), Ok(expected.unwrap()));
    }
    assert_eq!(
        render("\\middle +", DisplayStyle::Block).unwrap(),
        "<math xmlns=\"http://www.w3.org/1998/Math/MathML\" display=\"block\">\
         <mo stretchy=\"true\">+</mo></math>"
    );
}

#[test]
fn middle_that_is_not_reached_gives_the_converter_s_answer() {
    let markup = [
        "\\middl x",
        "\\middlex y",
        "\\Middle x",
        "\\\\middle x",
        "\\text\\middle",
        "\\text\\middle x",
        "\\operatorname\\middle",
        "\\text{a \\middle b}",
        "\\operatorname{a\\middle}",
        "\\slashed\\middle x",
        "a\0\\middle x",
        "\0\\middle",
    ];
    for latex in markup {
        assert_eq!(parse(latex), Parsed::Node(false), "{latex}");
        let expected = latex2mathml::latex_to_mathml(latex, latex2mathml::DisplayStyle::Inline);
        assert_eq!(render(latex, DisplayStyle::Inline), Ok(expected.unwrap()));
    }
    let errors = [
        "\\left\\middle",
        "\\left x \\middle y",
        "\\bigl\\middle",
        "\\bigl\\middle x",
        "\\middle{",
        "\\middle{ x",
        "\\middle\\left(",
        "\\middle\\left x",
        "\\middle\\bigl x",
        "\\middle\\begin{matrix} x",
        "\\middle\\begin{foo} x \\end{foo}",
        "{ \\middle +",
        "\\left( \\middle| x",
    ];
    for latex in errors {
        assert_eq!(parse(latex), Parsed::Fails, "{latex}");
        let said = latex2mathml::latex_to_mathml(latex, latex2mathml::DisplayStyle::Inline)
            .unwrap_err()
            .to_string();
        assert_eq!(render(latex, DisplayStyle::Inline), Err(Error::Conversion { cause: said }));
    }
}

#[test]
fn middle_without_an_operator_behind_it_is_refused() {
    let refused = [
        "\\middle",
        "\\middle   ",
        "\\middle x",
        "\\middle3",
        "\\middle\\",
        "\\middle}",
        "\\middle_",
        "\\middle^",
        "\\middle&",
        "\\middle\\alpha",
        "\\middle\\frac12",
        "\\middle\\middle|",
        "\\middle\\lim",
        "\\middle\\ ",
        "\\middle\\,",
        "\\middle\\Langle",
        "\\middle\\langlee",
        "\\middle\\right",
        "\\middle\\text{a}",
        "\\middle{}",
        "\\middle{a}",
        "\\middle{||}",
        "\\middle\\left(a\\right)",
        "\\middle\\begin{matrix} x \\end{matrix}",
        "a \\middle| b \\middle",
        "\\middle|'",
        "\\middle| \r '",
        "\\middle\\} '",
        "\\middle:='",
        "\\middle:'",
        "\\middle\\sum_",
        "\\middle\\sum_i",
        "\\middle\\sum  ^",
        "\\middle\\int'",
        "\\alpha\\middle x",
        "\\\\\\middle x",
        "\\text{a}\\middle b",
        "{\\middle x}",
        "\\frac{\\middle x}{2}",
        "\\left( a \\middle b \\right)",
    ];
    for latex in refused {
        assert_eq!(parse(latex), Parsed::Stops, "{latex}");
        assert_eq!(render(latex, DisplayStyle::Inline), Err(Error::Unsupported));
    }
}

#[test]
fn unsupported_text_is_kept_from_the_converter() {
    let error = render("\\left( a \\middle b \\right)", DisplayStyle::Block).unwrap_err();
    assert_eq!(error, Error::Unsupported);
    assert_eq!(
        error.message(),
        "`mathtex` cannot convert a `\\middle` that no operator follows."
    );
    assert!(error.cause().is_none());
}

#[test]
fn parsing_tells_markup_from_errors() {
    let formulas = [
        ("", true),
        ("x^2", true),
        ("\\frac12", true),
        ("\\frac{1}{2}", true),
        ("\\sqrt[3]{x}", true),
        ("\\sqrt[3{x}", false),
        ("\\left( x \\right)", true),
        ("\\left x", false),
        ("\\left( x \\right", false),
        ("\\left. x \\right.", true),
        ("{ x", false),
        ("x }", true),
        ("\\bigl(", true),
        ("\\bigl x", false),
        ("\\begin{matrix} a & b \\\\ c & d \\end{matrix}", true),
        ("\\begin{align} a & b \\end{align}", true),
        ("\\begin{pmatrix} a \\end{pmatrix}", true),
        ("\\begin{foo} a \\end{foo}", false),
        ("\\begin{matrix} a", false),
        ("\\sum_{i=0}^n i", true),
        ("\\overbrace{a+b}^{n}", true),
        ("\\lim_{x \\to 0} f'", true),
        ("\\text{abc} \\operatorname{res}", true),
        ("3.14.15", true),
        ("a := b", true),
    ];
    for (latex, markup) in formulas {
        let expected = converted(latex, latex2mathml::DisplayStyle::Inline);
        assert_eq!(expected.is_ok(), markup, "{latex}");
        assert_eq!(parse(latex), if markup { Parsed::Node(false) } else { Parsed::Fails });
        assert_eq!(render(latex, DisplayStyle::Inline), expected);
    }
}
