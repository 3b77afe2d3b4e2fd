//! One formatting job: validate the UFO path, resolve the output path, run
//! the codec's read/write round trip with the requested indentation and
//! quote style, and report the outcome.

use vstd::prelude::*;
use vstd::string::*;
use crate::codec::{
    font_load, font_save, load_error_chain, make_write_options, quote_char_double,
    quote_char_single, write_error_chain,
};
use crate::errors::UfoFmtError;
use crate::utils::{get_ufo_outpath, has_file_stem, opt_view, resolved_outpath};
use crate::validators::is_invalid_ufo_dir_path;

verus! {

/// The indentation characters of one indent level: `indent_number` tabs, or
/// spaces when `indent_with_space` is set.
pub open spec fn indent_seq(indent_with_space: bool, indent_number: int) -> Seq<char> {
    Seq::new(
        indent_number as nat,
        |i: int|
            if indent_with_space {
                ' '
            } else {
                '\t'
            },
    )
}

/// The indentation string for one indent level, from the user's options.
pub fn get_indent_str(indent_with_space: bool, indent_number: u8) -> (r: &'static str)
    requires
        1 <= indent_number <= 4,
    ensures
        r@ == indent_seq(indent_with_space, indent_number as int),
{
    let r: &'static str = match (indent_with_space, indent_number) {
        (false, 1) => "\t",
        (false, 2) => "\t\t",
        (false, 3) => "\t\t\t",
        (false, _) => "\t\t\t\t",
        (true, 1) => " ",
        (true, 2) => "  ",
        (true, 3) => "   ",
        (true, _) => "    ",
    };
    proof {
        reveal_strlit("\t");
        reveal_strlit("\t\t");
        reveal_strlit("\t\t\t");
        reveal_strlit("\t\t\t\t");
        reveal_strlit(" ");
        reveal_strlit("  ");
        reveal_strlit("   ");
        reveal_strlit("    ");
        assert(r@ =~= indent_seq(indent_with_space, indent_number as int));
    }
    r
}

/// Where a job writes: the input path itself when neither override option is
/// set (in-place rewrite), the resolved output path otherwise.
pub open spec fn target_outpath(
    p: Seq<char>,
    uname: Option<Seq<char>>,
    uext: Option<Seq<char>>,
) -> Seq<char> {
    if uname is None && uext is None {
        p
    } else {
        resolved_outpath(p, uname, uext)
    }
}

/// The shape every outcome of a formatting job has: a success carries the
/// target output path; an invalid-path or read failure names the input path;
/// a write failure names the target output path. An override on a path
/// without a file stem is the job's own decision, made before any codec
/// call: it always ends in an invalid-path failure naming the input.
pub open spec fn format_outcome_matches(
    p: Seq<char>,
    uname: Option<Seq<char>>,
    uext: Option<Seq<char>>,
    r: Result<String, UfoFmtError>,
) -> bool {
    &&& match r {
        Ok(out) => {
            &&& ((uname is Some || uext is Some) ==> has_file_stem(p))
            &&& out@ == target_outpath(p, uname, uext)
        },
        Err(e) => match e {
            UfoFmtError::InvalidPath(q) => q@ == p,
            UfoFmtError::Read(q, _, _) => q@ == p,
            UfoFmtError::Write(q, _, _) => {
                &&& ((uname is Some || uext is Some) ==> has_file_stem(p))
                &&& q@ == target_outpath(p, uname, uext)
            },
        },
    }
    &&& ((uname is Some || uext is Some) && !has_file_stem(p)) ==> (r matches Err(
        UfoFmtError::InvalidPath(q),
    ) && q@ == p)
}

/// Formats one UFO bundle: read/write round trip through the font codec.
/// Returns the path written on success, or the error that ended the job.
pub fn format_ufo(
    ufopath: &str,
    unique_filename: &Option<String>,
    unique_extension: &Option<String>,
    singlequotes: bool,
    indent_with_space: bool,
    indent_number: u8,
) -> (r: Result<String, UfoFmtError>)
    requires
        1 <= indent_number <= 4,
    ensures
        format_outcome_matches(
            ufopath@,
            opt_view(*unique_filename),
            opt_view(*unique_extension),
            r,
        ),
{
    if is_invalid_ufo_dir_path(ufopath) {
        return Err(UfoFmtError::InvalidPath(String::from_str(ufopath)));
    }

    let outpath: String;
    if unique_filename.is_some() || unique_extension.is_some() {
        match get_ufo_outpath(ufopath, unique_filename, unique_extension) {
            Some(p) => {
                outpath = p;
            },
            None => {
                return Err(UfoFmtError::InvalidPath(String::from_str(ufopath)));
            },
        }
    } else {
        outpath = String::from_str(ufopath);
    }

    let indentation_str = get_indent_str(indent_with_space, indent_number);

    match font_load(ufopath) {
        Ok(ufo) => {
            let quote_style = if singlequotes {
                quote_char_single()
            } else {
                quote_char_double()
            };
            let options = make_write_options(indentation_str, quote_style);
            match font_save(&ufo, outpath.as_str(), &options) {
                Ok(_) => Ok(outpath),
                Err(e) => {
                    let (root, causes) = write_error_chain(&e);
                    Err(UfoFmtError::Write(outpath, root, causes))
                },
            }
        },
        Err(e) => {
            let (root, causes) = load_error_chain(&e);
            Err(UfoFmtError::Read(String::from_str(ufopath), root, causes))
        },
    }
}

} // verus!
