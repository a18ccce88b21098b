//! Choosing the decoder for a rendered format that needs conversion before
//! it enters the editable RGB pipeline (such inputs are not camera RAW).
use crate::formats::{converted_input_extension_table, extension_listed, is_converted_input_file};
use crate::paths::path_extension;
use vstd::prelude::*;
use vstd::string::StringSliceAdditionalSpecFns;

verus! {

/// The converted-input decoders there are.
#[derive(Clone, Copy, Debug, PartialEq, Eq)]
pub enum ConvertedDecoder {
    /// HEIC/HEIF, decoded by the system image codec.
    Heif,
}

/// Why a converted input could not be decoded.
#[derive(Clone, Copy, Debug, PartialEq, Eq)]
pub enum ConvertedInputError {
    /// No decoder handles the extension of the path.
    NoDecoder,
}

/// The decoder for `path`, chosen by its extension (ignoring ASCII case)
/// among those the platform has (`decoder_available`: whether it has a HEIF
/// decoder).
pub fn select_decoder(path: &str, decoder_available: bool) -> (r: Result<
    ConvertedDecoder,
    ConvertedInputError,
>)
    ensures
        r == if extension_listed(
            path_extension(path.spec_bytes()),
            converted_input_extension_table(decoder_available),
        ) {
            Ok::<ConvertedDecoder, ConvertedInputError>(ConvertedDecoder::Heif)
        } else {
            Err(ConvertedInputError::NoDecoder)
        },
{
    if is_converted_input_file(path, decoder_available) {
        Ok(ConvertedDecoder::Heif)
    } else {
        Err(ConvertedInputError::NoDecoder)
    }
}

} // verus!
