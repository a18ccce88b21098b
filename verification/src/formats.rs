//! Which files the library can open, decided by their extension.
use crate::paths::{
    eq_ignore_ascii_case, eq_ignore_ascii_case_at, extension_bounds, file_name, file_name_bounds,
    path_extension, DOT,
};
use vstd::prelude::*;
use vstd::string::StringSliceAdditionalSpecFns;

verus! {

/// Camera RAW extensions, each with the camera family it belongs to.
pub open spec fn raw_extension_table() -> Seq<(&'static str, &'static str)> {
    seq![
        ("dng", "Adobe Digital Negative"),
        ("pro", "Apple ProRAW"),
        ("ari", "ARRI Raw"),
        ("crw", "Canon Raw"),
        ("cr2", "Canon Raw 2"),
        ("cr3", "Canon Raw 3"),
        ("bay", "Casio"),
        ("raw", "Contax"),
        ("erf", "Epson Raw"),
        ("raf", "Fuji Raw"),
        ("3fr", "Hasselblad"),
        ("fff", "Hasselblad"),
        ("iiq", "Imacon/Phase One"),
        ("kdc", "Kodak"),
        ("k25", "Kodak"),
        ("dcs", "Kodak"),
        ("dcr", "Kodak"),
        ("mos", "Leaf"),
        ("rwl", "Leica Raw"),
        ("mef", "Mamiya"),
        ("mrw", "Minolta Raw"),
        ("nef", "Nikon Electronic Format"),
        ("nrw", "Nikon Raw"),
        ("orf", "Olympus Raw"),
        ("rw2", "Panasonic Raw 2"),
        ("raw", "Panasonic Raw"),
        ("pef", "Pentax Electronic File"),
        ("ptx", "Pentax"),
        ("srw", "Samsung Raw"),
        ("x3f", "Sigma"),
        ("arw", "Sony Alpha Raw"),
        ("srf", "Sony Raw"),
        ("sr2", "Sony Raw 2"),
    ]
}

/// Rendered (non-RAW) formats that open directly.
pub open spec fn non_raw_extension_table() -> Seq<&'static str> {
    seq![
        "jpg", "jpeg", "png", "gif", "bmp", "tiff", "tif", "webp", "jxl", "exr", "hdr", "tga",
        "ico", "dds", "qoi", "ff", "pnm", "pbm", "pgm", "ppm", "pam",
    ]
}

/// Rendered formats that need a conversion step before editing (HEIF).
/// They are listed only where the platform has a decoder for them
/// (`decoder_available`), so that no format is offered that cannot be opened.
pub open spec fn converted_input_extension_table(decoder_available: bool) -> Seq<&'static str> {
    if decoder_available {
        seq!["hif", "heic", "heif"]
    } else {
        seq![]
    }
}

/// The RAW extensions without their descriptions.
pub open spec fn raw_extension_names() -> Seq<&'static str> {
    raw_extension_table().map_values(|entry: (&'static str, &'static str)| entry.0)
}

/// `ext` is present and equals one of `names` up to ASCII case.
pub open spec fn extension_listed(ext: Option<Seq<u8>>, names: Seq<&'static str>) -> bool {
    match ext {
        Some(e) => exists|i: int|
            0 <= i < names.len() && eq_ignore_ascii_case(#[trigger] names[i].spec_bytes(), e),
        None => false,
    }
}

/// The final component of the path starts with a dot.
pub open spec fn is_hidden_path(p: Seq<u8>) -> bool {
    match file_name(p) {
        Some(name) => name.len() > 0 && name[0] == DOT,
        None => false,
    }
}

/// A path the library opens: not hidden, with a RAW, direct or
/// converted-input extension (the last only where a decoder is available).
pub open spec fn supported_image_path(p: Seq<u8>, decoder_available: bool) -> bool {
    &&& !is_hidden_path(p)
    &&& {
        ||| extension_listed(path_extension(p), raw_extension_names())
        ||| extension_listed(path_extension(p), non_raw_extension_table())
        ||| extension_listed(path_extension(p), converted_input_extension_table(decoder_available))
    }
}

/// The camera RAW extensions and their camera families.
pub fn raw_extensions() -> (table: Vec<(&'static str, &'static str)>)
    ensures
        table@ == raw_extension_table(),
{
    vec![
        ("dng", "Adobe Digital Negative"),
        ("pro", "Apple ProRAW"),
        ("ari", "ARRI Raw"),
        ("crw", "Canon Raw"),
        ("cr2", "Canon Raw 2"),
        ("cr3", "Canon Raw 3"),
        ("bay", "Casio"),
        ("raw", "Contax"),
        ("erf", "Epson Raw"),
        ("raf", "Fuji Raw"),
        ("3fr", "Hasselblad"),
        ("fff", "Hasselblad"),
        ("iiq", "Imacon/Phase One"),
        ("kdc", "Kodak"),
        ("k25", "Kodak"),
        ("dcs", "Kodak"),
        ("dcr", "Kodak"),
        ("mos", "Leaf"),
        ("rwl", "Leica Raw"),
        ("mef", "Mamiya"),
        ("mrw", "Minolta Raw"),
        ("nef", "Nikon Electronic Format"),
        ("nrw", "Nikon Raw"),
        ("orf", "Olympus Raw"),
        ("rw2", "Panasonic Raw 2"),
        ("raw", "Panasonic Raw"),
        ("pef", "Pentax Electronic File"),
        ("ptx", "Pentax"),
        ("srw", "Samsung Raw"),
        ("x3f", "Sigma"),
        ("arw", "Sony Alpha Raw"),
        ("srf", "Sony Raw"),
        ("sr2", "Sony Raw 2"),
    ]
}

/// The rendered formats that open directly.
pub fn non_raw_extensions() -> (table: Vec<&'static str>)
    ensures
        table@ == non_raw_extension_table(),
{
    vec![
        "jpg", "jpeg", "png", "gif", "bmp", "tiff", "tif", "webp", "jxl", "exr", "hdr", "tga",
        "ico", "dds", "qoi", "ff", "pnm", "pbm", "pgm", "ppm", "pam",
    ]
}

/// The rendered formats that go through a converted-input decoder, given
/// whether the platform has one: none where it has not.
pub fn converted_input_extensions(decoder_available: bool) -> (table: Vec<&'static str>)
    ensures
        table@ == converted_input_extension_table(decoder_available),
{
    if decoder_available {
        vec!["hif", "heic", "heif"]
    } else {
        Vec::new()
    }
}

/// Whether `bytes[start..end]` equals one of `names` up to ASCII case.
fn listed_at(names: &Vec<&'static str>, bytes: &[u8], start: usize, end: usize) -> (r: bool)
    requires
        start <= end <= bytes@.len(),
    ensures
        r == extension_listed(Some(bytes@.subrange(start as int, end as int)), names@),
{
    let ghost ext = bytes@.subrange(start as int, end as int);
    let mut i: usize = 0;
    while i < names.len()
        invariant
            i <= names@.len(),
            start <= end <= bytes@.len(),
            ext == bytes@.subrange(start as int, end as int),
            forall|k: int|
                0 <= k < i ==> !eq_ignore_ascii_case(#[trigger] names@[k].spec_bytes(), ext),
        decreases names@.len() - i,
    {
        if eq_ignore_ascii_case_at(names[i].as_bytes(), bytes, start, end) {
            return true;
        }
        i = i + 1;
    }
    false
}

/// Whether the extension of `path` is one of `names`, ignoring ASCII case.
fn has_extension(path: &str, names: &Vec<&'static str>) -> (r: bool)
    ensures
        r == extension_listed(path_extension(path.spec_bytes()), names@),
{
    let bytes = path.as_bytes();
    match extension_bounds(bytes) {
        None => false,
        Some((start, end)) => listed_at(names, bytes, start, end),
    }
}

/// The extension names of the RAW table, in order.
fn raw_extension_name_list() -> (names: Vec<&'static str>)
    ensures
        names@ == raw_extension_names(),
{
    let table = raw_extensions();
    let mut names: Vec<&'static str> = Vec::new();
    let mut i: usize = 0;
    while i < table.len()
        invariant
            i <= table@.len(),
            table@ == raw_extension_table(),
            names@ == raw_extension_names().subrange(0, i as int),
        decreases table@.len() - i,
    {
        names.push(table[i].0);
        i = i + 1;
        assert(names@ =~= raw_extension_names().subrange(0, i as int));
    }
    assert(raw_extension_names().subrange(0, i as int) =~= raw_extension_names());
    names
}

/// Whether `path` names a camera RAW file.
pub fn is_raw_file(path: &str) -> (r: bool)
    ensures
        r == extension_listed(path_extension(path.spec_bytes()), raw_extension_names()),
{
    let names = raw_extension_name_list();
    has_extension(path, &names)
}

/// Whether `path` names a rendered format that goes through a converted-input
/// decoder; never where the platform has no such decoder.
pub fn is_converted_input_file(path: &str, decoder_available: bool) -> (r: bool)
    ensures
        r == extension_listed(
            path_extension(path.spec_bytes()),
            converted_input_extension_table(decoder_available),
        ),
        !decoder_available ==> !r,
{
    let names = converted_input_extensions(decoder_available);
    has_extension(path, &names)
}

/// Every non-RAW extension that file pickers and folder discovery advertise:
/// the direct formats, then the converted inputs the platform can decode.
pub fn supported_non_raw_extensions(decoder_available: bool) -> (all: Vec<&'static str>)
    ensures
        all@ == non_raw_extension_table() + converted_input_extension_table(decoder_available),
{
    let mut all = non_raw_extensions();
    let mut rest = converted_input_extensions(decoder_available);
    all.append(&mut rest);
    all
}

/// Whether `path` names an image the library can open: not hidden, and a
/// RAW, direct or (where a decoder is available) converted-input extension.
pub fn is_supported_image_file(path: &str, decoder_available: bool) -> (r: bool)
    ensures
        r == supported_image_path(path.spec_bytes(), decoder_available),
{
    let bytes = path.as_bytes();
    match file_name_bounds(bytes) {
        Some((start, end)) => {
            if start < end && bytes[start] == DOT {
                return false;
            }
        },
        None => {},
    }
    if is_raw_file(path) {
        return true;
    }
    let direct = non_raw_extensions();
    has_extension(path, &direct) || is_converted_input_file(path, decoder_available)
}

/// The camera RAW formats: a path is a RAW file exactly when its extension
/// is, ignoring ASCII case, one of Adobe DNG, Apple ProRAW, ARRI, Canon
/// CRW/CR2/CR3, Casio, Contax and Panasonic RAW, Epson, Fuji, Hasselblad
/// 3FR/FFF, Imacon/Phase One, Kodak KDC/K25/DCS/DCR, Leaf, Leica, Mamiya,
/// Minolta, Nikon NEF/NRW, Olympus, Panasonic RW2, Pentax PEF/PTX, Samsung,
/// Sigma and Sony ARW/SRF/SR2.
pub proof fn law_raw_formats(p: Seq<u8>)
    ensures
        extension_listed(path_extension(p), raw_extension_names()) <==> extension_listed(
            path_extension(p),
            seq!["dng", "pro", "ari", "crw", "cr2", "cr3", "bay", "raw", "erf", "raf", "3fr", "fff", "iiq", "kdc", "k25", "dcs", "dcr", "mos", "rwl", "mef", "mrw", "nef", "nrw", "orf", "rw2", "raw", "pef", "ptx", "srw", "x3f", "arw", "srf", "sr2"],
        ),
{
    assert(raw_extension_names() =~= seq!["dng", "pro", "ari", "crw", "cr2", "cr3", "bay", "raw", "erf", "raf", "3fr", "fff", "iiq", "kdc", "k25", "dcs", "dcr", "mos", "rwl", "mef", "mrw", "nef", "nrw", "orf", "rw2", "raw", "pef", "ptx", "srw", "x3f", "arw", "srf", "sr2"]);
}

/// The rendered formats that open directly: JPEG, PNG, GIF, BMP, TIFF,
/// WebP, JPEG XL, OpenEXR, Radiance HDR, TGA, ICO, DDS, QOI, farbfeld and
/// the Netpbm family, each in any ASCII case.
pub proof fn law_direct_formats(p: Seq<u8>)
    ensures
        extension_listed(path_extension(p), non_raw_extension_table()) <==> extension_listed(
            path_extension(p),
            seq!["jpg", "jpeg", "png", "gif", "bmp", "tiff", "tif", "webp", "jxl", "exr", "hdr", "tga", "ico", "dds", "qoi", "ff", "pnm", "pbm", "pgm", "ppm", "pam"],
        ),
{
    assert(non_raw_extension_table() =~= seq!["jpg", "jpeg", "png", "gif", "bmp", "tiff", "tif", "webp", "jxl", "exr", "hdr", "tga", "ico", "dds", "qoi", "ff", "pnm", "pbm", "pgm", "ppm", "pam"]);
}

/// Where a HEIF decoder is available, HIF, HEIC and HEIF files go through
/// it, in any ASCII case.
pub proof fn law_converted_formats(p: Seq<u8>)
    ensures
        extension_listed(path_extension(p), converted_input_extension_table(true))
            <==> extension_listed(path_extension(p), seq!["hif", "heic", "heif"]),
{
    assert(converted_input_extension_table(true) =~= seq!["hif", "heic", "heif"]);
}

/// Converted inputs share the folder-discovery registry: where a decoder is
/// available, a visible file with a converted-input extension is a supported
/// image.
pub proof fn law_converted_inputs_are_discovered(p: Seq<u8>)
    requires
        !is_hidden_path(p),
        extension_listed(path_extension(p), converted_input_extension_table(true)),
    ensures
        supported_image_path(p, true),
{
}

/// File pickers and drop targets advertise every converted-input extension
/// the platform can decode.
pub proof fn law_converted_inputs_are_advertised(decoder_available: bool, i: int)
    requires
        0 <= i < converted_input_extension_table(decoder_available).len(),
    ensures
        (non_raw_extension_table() + converted_input_extension_table(decoder_available)).contains(
            converted_input_extension_table(decoder_available)[i],
        ),
{
    let conv = converted_input_extension_table(decoder_available);
    let all = non_raw_extension_table() + conv;
    assert(all[non_raw_extension_table().len() + i] == conv[i]);
}

/// Without a decoder nothing is advertised or opened as a converted input:
/// the advertised extensions are exactly the direct ones, and a path is
/// supported exactly when it is supported with no converted inputs at all.
pub proof fn law_no_decoder_advertises_no_converted_input(p: Seq<u8>)
    ensures
        non_raw_extension_table() + converted_input_extension_table(false)
            == non_raw_extension_table(),
        !extension_listed(path_extension(p), converted_input_extension_table(false)),
        supported_image_path(p, false) <==> (!is_hidden_path(p) && (extension_listed(
            path_extension(p),
            raw_extension_names(),
        ) || extension_listed(path_extension(p), non_raw_extension_table()))),
{
    assert(non_raw_extension_table() + converted_input_extension_table(false)
        =~= non_raw_extension_table());
}

/// Hidden files are never offered, whatever their extension.
pub proof fn law_hidden_files_are_not_supported(p: Seq<u8>, decoder_available: bool)
    requires
        is_hidden_path(p),
    ensures
        !supported_image_path(p, decoder_available),
{
}

} // verus!
