//! The template renderer: expands a Liquid template against a caller-supplied
//! variable context, producing the markup text that the prompt compiler
//! parses. The rendering itself is the template engine's work; the compiler
//! takes whatever text comes back.

use vstd::prelude::*;

use crate::text_api::client::TemplateError;

verus! {

#[verifier::external_type_specification]
#[verifier::external_body]
pub struct ExLiquidParser(liquid::Parser);

#[verifier::external_type_specification]
#[verifier::external_body]
pub struct ExLiquidTemplate(liquid::Template);

#[verifier::external_type_specification]
#[verifier::external_body]
pub struct ExLiquidObject(liquid::Object);

/// Relies on liquid's ParserBuilder: `with_stdlib().build()` constructs the
/// parser with the standard tag and filter set, or reports the builder error.
#[verifier::external_body]
fn stdlib_parser() -> (r: Result<liquid::Parser, TemplateError>) {
    liquid::ParserBuilder::with_stdlib().build().map_err(
        |e| TemplateError { message: e.to_string() },
    )
}

/// Relies on liquid::Parser::parse: compiles template text, or reports a
/// malformed-template error.
#[verifier::external_body]
fn parse_template(p: &liquid::Parser, text: &str) -> (r: Result<
    liquid::Template,
    TemplateError,
>) {
    p.parse(text).map_err(|e| TemplateError { message: e.to_string() })
}

/// Relies on liquid::Template::render: renders against the variable context,
/// or reports an undefined-variable or rendering error. The output is plain
/// text, never escaped or encoded.
#[verifier::external_body]
fn render_template(t: &liquid::Template, globals: &liquid::Object) -> (r: Result<
    String,
    TemplateError,
>) {
    t.render(globals).map_err(|e| TemplateError { message: e.to_string() })
}

/// Renders template text against the variable context, failing with
/// [`TemplateError`] on malformed template syntax or a rendering fault.
pub fn render(contents: &str, globals: &liquid::Object) -> (r: Result<String, TemplateError>) {
    let parser = match stdlib_parser() {
        Ok(p) => p,
        Err(e) => {
            return Err(e);
        },
    };
    let template = match parse_template(&parser, contents) {
        Ok(t) => t,
        Err(e) => {
            return Err(e);
        },
    };
    render_template(&template, globals)
}

} // verus!
