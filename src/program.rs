//! The program synthesized around an expression: it evaluates the
//! expression, renders the value with `to_string`, and writes that text to
//! the output file of the project.
use vstd::prelude::*;
use proc_macro2::TokenStream;

verus! {

/// Path of the entry-point source file, relative to the project root.
pub const ENTRY_POINT: &'static str = "src/main.rs";

/// Name of the file the synthesized program writes, relative to the project
/// root (the program runs there).
pub const OUTPUT_FILE: &'static str = "output";

/// Program text up to the expression.
pub const PROGRAM_HEAD: &'static str = "use std::io::prelude::*;\n\nfn main() -> std::io::Result<()> {\n    let output = { ";

/// Program text after the expression. The output file is created only once
/// the expression has been evaluated, so a program that panics leaves none.
pub const PROGRAM_TAIL: &'static str = " }.to_string();\n    let mut file = std::fs::File::create(\"output\")?;\n    file.write_all(output.as_bytes())?;\n    Ok(())\n}\n";

/// The whole program for the expression text `expr`.
pub open spec fn program_text(expr: Seq<char>) -> Seq<char> {
    PROGRAM_HEAD@ + expr + PROGRAM_TAIL@
}

/// The token type of `proc_macro2`, carried through opaque.
#[verifier::external_type_specification]
#[verifier::external_body]
pub struct ExTokenStream(TokenStream);

/// The source text that a token stream prints as.
pub uninterp spec fn token_text_of(t: TokenStream) -> Seq<char>;

/// Relies on the `Display` impl of `proc_macro2::TokenStream`, which prints
/// the tokens as source text that depends on the tokens alone.
#[verifier::external_body]
fn token_text(expr: &TokenStream) -> (r: String)
    ensures
        r@ == token_text_of(*expr),
{
    expr.to_string()
}

/// The program for an expression given as source text.
pub fn wrapper_source(expr: &str) -> (r: String)
    ensures
        r@ == program_text(expr@),
{
    let mut r = PROGRAM_HEAD.to_string();
    r.append(expr);
    r.append(PROGRAM_TAIL);
    r
}

/// The program for an expression given as tokens: that of `wrapper_source`
/// on the source text the tokens print as.
pub fn wrapper_program(expr: &TokenStream) -> (r: String)
    ensures
        r@ == program_text(token_text_of(*expr)),
{
    let text = token_text(expr);
    wrapper_source(text.as_str())
}

} // verus!
