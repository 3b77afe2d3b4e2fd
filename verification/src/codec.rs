//! The font codec: the external collaborator that parses a UFO bundle into a
//! font model and serializes it back with caller-supplied whitespace and
//! quote options. Every call into it goes through one of the trusted items
//! below; what the codec reads and writes on disk cannot be promised here,
//! so their contracts only fix what must hold of every outcome.

use vstd::prelude::*;

verus! {

#[verifier::external_type_specification]
#[verifier::external_body]
pub struct ExFont(norad::Font);

#[verifier::external_type_specification]
#[verifier::external_body]
pub struct ExWriteOptions(norad::WriteOptions);

#[verifier::external_type_specification]
#[verifier::external_body]
pub struct ExQuoteChar(norad::QuoteChar);

#[verifier::external_type_specification]
#[verifier::external_body]
pub struct ExFontLoadError(norad::error::FontLoadError);

#[verifier::external_type_specification]
#[verifier::external_body]
pub struct ExFontWriteError(norad::error::FontWriteError);

/// Relies on norad::QuoteChar::Single: the single-quote XML declaration
/// style.
#[verifier::external_body]
pub(crate) fn quote_char_single() -> norad::QuoteChar {
    norad::QuoteChar::Single
}

/// Relies on norad::QuoteChar::Double: the double-quote XML declaration
/// style, norad's default.
#[verifier::external_body]
pub(crate) fn quote_char_double() -> norad::QuoteChar {
    norad::QuoteChar::Double
}

/// Relies on norad::WriteOptions::default, ::whitespace and ::quote_char:
/// builds the serialization options for the given indentation string and
/// quote style. `whitespace` panics unless the string is a nonempty run of
/// one indentation character, so such strings are required here.
#[verifier::external_body]
pub(crate) fn make_write_options(indent_str: &'static str, quote_style: norad::QuoteChar) -> (r:
    norad::WriteOptions)
    requires
        indent_str@.len() > 0,
        forall|j: int| 0 <= j < indent_str@.len() ==> #[trigger] indent_str@[j] == indent_str@[0],
        indent_str@[0] == '\t' || indent_str@[0] == ' ',
{
    #[allow(deprecated)]
    norad::WriteOptions::default().whitespace(indent_str).quote_char(quote_style)
}

/// Relies on norad::Font::load: reads and parses the UFO bundle at the path
/// into a font model, or reports why it cannot. The result depends on the
/// disk at the time of the call.
#[verifier::external_body]
pub(crate) fn font_load(ufopath: &str) -> Result<norad::Font, norad::error::FontLoadError> {
    norad::Font::load(std::path::Path::new(ufopath))
}

/// Relies on norad::Font::save_with_options: serializes the font model to
/// the path with the given options, overwriting previous contents, or
/// reports why it cannot.
#[verifier::external_body]
pub(crate) fn font_save(
    font: &norad::Font,
    outpath: &str,
    options: &norad::WriteOptions,
) -> Result<(), norad::error::FontWriteError> {
    font.save_with_options(std::path::Path::new(outpath), options)
}

/// Relies on the Display impl of norad::error::FontLoadError and on
/// std::error::Error::source: hands out the decode failure's own text and
/// the texts of its chain of deeper causes, outermost first. Each link is
/// only mapped to its text; the rendering happens in verified code.
#[verifier::external_body]
pub(crate) fn load_error_chain(e: &norad::error::FontLoadError) -> (String, Vec<String>) {
    let root = format!("{}", e);
    let mut causes = Vec::new();
    let mut cause = std::error::Error::source(e);
    while let Some(c) = cause {
        causes.push(format!("{}", c));
        cause = std::error::Error::source(c);
    }
    (root, causes)
}

/// Relies on the Display impl of norad::error::FontWriteError and on
/// std::error::Error::source: hands out the encode failure's own text and
/// the texts of its chain of deeper causes, outermost first. Each link is
/// only mapped to its text; the rendering happens in verified code.
#[verifier::external_body]
pub(crate) fn write_error_chain(e: &norad::error::FontWriteError) -> (String, Vec<String>) {
    let root = format!("{}", e);
    let mut causes = Vec::new();
    let mut cause = std::error::Error::source(e);
    while let Some(c) = cause {
        causes.push(format!("{}", c));
        cause = std::error::Error::source(c);
    }
    (root, causes)
}

} // verus!
