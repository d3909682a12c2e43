use rspack_plugin_javascript::module_type::ModuleType;
use rspack_plugin_javascript::options::{JavascriptParserOptions, ParserOptions};
use rspack_plugin_javascript::parse::{begin_parse, ParseRequest};
use rspack_plugin_javascript::parse_meta::ParseMeta;
use rspack_plugin_javascript::scan::BuildInfo;
use swc_core::ecma::parser::Parser;
use swc_node_comments::SwcComments;

fn request<'a>(
    text: &'a str,
    options: &'a ParserOptions,
    module_type: &'a ModuleType,
) -> ParseRequest<'a, (), ()> {
    let mut info: BuildInfo<()> =
        BuildInfo { collected_typescript_info: None, inline_exports: false };
    begin_parse(ParseMeta::new(), "ts", &mut info, Some(options), module_type, text)
}

/// The spans of the tokens of a text.
fn spans(text: &str) -> Vec<(u32, u32)> {
    let options = options(false);
    let request = request(text, &options, &ModuleType::JsAuto);
    let comments = SwcComments::default();
    request
        .lexer(&comments)
        .map(|token| (token.span.lo.0, token.span.hi.0))
        .collect()
}

fn options(jsx: bool) -> ParserOptions {
    ParserOptions {
        javascript: Some(JavascriptParserOptions {
            import_meta: None,
            commonjs: None,
            worker: None,
            jsx: Some(jsx),
        }),
    }
}

/// Whether a text is a script with the lexer that is asked for.
fn is_script(text: &str, jsx: bool, module_type: ModuleType) -> bool {
    let options = options(jsx);
    let request = request(text, &options, &module_type);
    let comments = SwcComments::default();
    let mut parser = Parser::new_from(request.lexer(&comments));
    let program = parser.parse_script();
    program.is_ok() && parser.take_errors().is_empty()
}

#[test]
fn the_first_byte_has_the_position_one() {
    assert_eq!(spans("ab + c"), vec![(1, 3), (4, 5), (6, 7)]);
    assert_eq!(spans(""), vec![]);
}

#[test]
fn jsx_is_read_only_if_the_options_allow_it() {
    assert!(is_script("x = <a />;", true, ModuleType::JsAuto));
    assert!(!is_script("x = <a />;", false, ModuleType::JsAuto));
}

#[test]
fn a_return_outside_functions_is_read_only_where_it_may_stand() {
    assert!(is_script("return 1;", false, ModuleType::JsDynamic));
    assert!(is_script("return 1;", false, ModuleType::JsAuto));
    assert!(!is_script("return 1;", false, ModuleType::JsEsm));
    assert!(!is_script("return 1;", false, ModuleType::Other(1)));
}

#[test]
fn comments_go_into_the_store() {
    let text = "/* note */ x";
    let options = options(false);
    let request = request(text, &options, &ModuleType::JsAuto);
    let comments = SwcComments::default();
    let mut parser = Parser::new_from(request.lexer(&comments));
    assert!(parser.parse_script().is_ok());
    assert_eq!(comments.leading.len(), 1);
}
