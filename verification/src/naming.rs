//! The name of the output file.
//!
//! The name is the stem of the input file, `_x`, the scale as a decimal
//! numeral, a dot, and the extension of the input file in lower case. An input
//! without a stem is called `image`; one without an extension gets `png`.

use crate::paths::{extension, extension_of, file_stem, file_stem_of};
use crate::text::{append_decimal, ascii_lowercase, decimal, lowercased};
use vstd::prelude::*;
use vstd::string::StringExecFns;

verus! {

/// The name of the output file for an input with the given stem and
/// extension, upscaled by `scale`.
pub open spec fn file_name_for(
    stem: Option<Seq<char>>,
    extension: Option<Seq<char>>,
    scale: int,
) -> Seq<char> {
    let name = match stem {
        Some(stem) => stem,
        None => "image"@,
    };
    let ending = match extension {
        Some(extension) => lowercased(extension),
        None => "png"@,
    };
    name + "_x"@ + decimal(scale) + "."@ + ending
}

/// The name of the output file, from the stem and the extension of the input
/// file and the scale.
pub fn compose_file_name(stem: Option<&str>, extension: Option<&str>, scale: i32) -> (name: String)
    ensures
        name@ == file_name_for(
            match stem {
                Some(stem) => Some(stem@),
                None => None,
            },
            match extension {
                Some(extension) => Some(extension@),
                None => None,
            },
            scale as int,
        ),
{
    let mut name = match stem {
        Some(stem) => String::from_str(stem),
        None => String::from_str("image"),
    };
    name.append("_x");
    append_decimal(&mut name, scale);
    name.append(".");
    match extension {
        Some(extension) => {
            let ending = ascii_lowercase(extension);
            name.append(ending.as_str());
        },
        None => {
            name.append("png");
        },
    }
    name
}

/// The name of the output file for the input at `input_path`, upscaled by
/// `scale`. `scale` is the target scale with its fraction cut off.
pub fn output_file_name(input_path: &str, scale: i32) -> (name: String)
    ensures
        name@ == file_name_for(file_stem_of(input_path@), extension_of(input_path@), scale as int),
{
    let stem = file_stem(input_path);
    let ending = extension(input_path);
    compose_file_name(
        match &stem {
            Some(stem) => Some(stem.as_str()),
            None => None,
        },
        match &ending {
            Some(ending) => Some(ending.as_str()),
            None => None,
        },
        scale,
    )
}

} // verus!
