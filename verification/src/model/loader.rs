//! What a model or skybox file is called in lists, and which files count as
//! models or skyboxes.
//!
//! File names arrive here taken apart: the name of the file with and
//! without its extension, the extension, and the name of the folder the file
//! lies in, each as text where it is text at all.

use vstd::prelude::*;
use vstd::string::StringExecFns;
use vstd::string::StringSliceAdditionalSpecFns;

verus! {

/// A byte with an ASCII capital letter made small.
pub open spec fn ascii_lower(byte: u8) -> u8 {
    if 0x41 <= byte <= 0x5A {
        (byte + 0x20) as u8
    } else {
        byte
    }
}

/// Whether two byte strings are the same but for the case of ASCII letters.
pub open spec fn same_ignoring_ascii_case(a: Seq<u8>, b: Seq<u8>) -> bool {
    &&& a.len() == b.len()
    &&& forall|i: int| 0 <= i < a.len() ==> ascii_lower(#[trigger] a[i]) == ascii_lower(b[i])
}

/// Whether two texts are the same but for the case of ASCII letters.
pub open spec fn same_name(a: &str, b: &str) -> bool {
    same_ignoring_ascii_case(a.spec_bytes(), b.spec_bytes())
}

/// Whether a file name without its extension says nothing about the model,
/// as the names do that exporters give by default.
pub open spec fn is_generic_name(stem: &str) -> bool {
    ||| same_name(stem, "scene")
    ||| same_name(stem, "model")
    ||| same_name(stem, "mesh")
    ||| same_name(stem, "object")
    ||| same_name(stem, "untitled")
}

/// The name a model goes by: its folder's name where the file's own name is
/// generic and the folder is not the models folder itself, else the file's
/// name with its extension, and `unknown` where that is no text.
pub open spec fn model_display_name(
    stem: Option<&str>,
    folder: Option<&str>,
    file_name: Option<&str>,
) -> Seq<char> {
    let by_file = match file_name {
        Some(name) => name@,
        None => "unknown"@,
    };
    match (stem, folder) {
        (Some(stem), Some(folder)) => if is_generic_name(stem) && !same_name(folder, "models") {
            folder@
        } else {
            by_file
        },
        _ => by_file,
    }
}

/// The name a skybox goes by: its file's name without the extension, and
/// `unknown` where that is no text.
pub open spec fn skybox_display_name(stem: Option<&str>) -> Seq<char> {
    match stem {
        Some(stem) => stem@,
        None => "unknown"@,
    }
}

/// The kinds of model file.
#[derive(Clone, Copy, Debug, PartialEq, Eq, Structural)]
pub enum ModelFormat {
    /// Wavefront OBJ.
    Obj,
    /// glTF, as text or binary.
    Gltf,
}

/// The kind of model file that an extension stands for, if any.
pub open spec fn format_of(extension: Option<&str>) -> Option<ModelFormat> {
    match extension {
        Some(ext) => if same_name(ext, "obj") {
            Some(ModelFormat::Obj)
        } else if same_name(ext, "gltf") || same_name(ext, "glb") {
            Some(ModelFormat::Gltf)
        } else {
            None
        },
        None => None,
    }
}

/// Whether an extension is that of an image that can serve as a skybox.
pub open spec fn is_skybox_extension(ext: &str) -> bool {
    ||| same_name(ext, "jpg")
    ||| same_name(ext, "jpeg")
    ||| same_name(ext, "png")
    ||| same_name(ext, "bmp")
}

fn to_ascii_lower(byte: u8) -> (lower: u8)
    ensures
        lower == ascii_lower(byte),
{
    if 0x41 <= byte && byte <= 0x5A {
        byte + 0x20
    } else {
        byte
    }
}

/// Whether two texts are the same but for the case of ASCII letters.
pub fn eq_ignore_ascii_case(a: &str, b: &str) -> (same: bool)
    ensures
        same == same_name(a, b),
{
    let left = a.as_bytes();
    let right = b.as_bytes();
    if left.len() != right.len() {
        return false;
    }
    let mut i: usize = 0;
    while i < left.len()
        invariant
            i <= left.len(),
            left.len() == right.len(),
            left@ == a.spec_bytes(),
            right@ == b.spec_bytes(),
            forall|k: int| 0 <= k < i ==> ascii_lower(#[trigger] left@[k]) == ascii_lower(right@[k]),
        decreases left.len() - i,
    {
        if to_ascii_lower(left[i]) != to_ascii_lower(right[i]) {
            assert(ascii_lower(left@[i as int]) != ascii_lower(right@[i as int]));
            return false;
        }
        i += 1;
    }
    true
}

fn is_generic(stem: &str) -> (generic: bool)
    ensures
        generic == is_generic_name(stem),
{
    eq_ignore_ascii_case(stem, "scene") || eq_ignore_ascii_case(stem, "model")
        || eq_ignore_ascii_case(stem, "mesh") || eq_ignore_ascii_case(stem, "object")
        || eq_ignore_ascii_case(stem, "untitled")
}

fn text_or_unknown(text: Option<&str>) -> (name: String)
    ensures
        name@ == (match text {
            Some(t) => t@,
            None => "unknown"@,
        }),
{
    match text {
        Some(t) => String::from_str(t),
        None => String::from_str("unknown"),
    }
}

/// The name a model goes by in lists. `stem` is the file's name without its
/// extension, `folder` the name of the folder it lies in, `file_name` the
/// file's name with its extension; each is `None` where the path has no such
/// part or the part is no text.
pub fn get_model_display_name(
    stem: Option<&str>,
    folder: Option<&str>,
    file_name: Option<&str>,
) -> (name: String)
    ensures
        name@ == model_display_name(stem, folder, file_name),
{
    match (stem, folder) {
        (Some(stem_text), Some(folder_text)) => {
            if is_generic(stem_text) && !eq_ignore_ascii_case(folder_text, "models") {
                return String::from_str(folder_text);
            }
        },
        _ => {},
    }
    text_or_unknown(file_name)
}

/// The name a skybox goes by in lists. `stem` is the file's name without
/// its extension, or `None` where there is none or it is no text.
pub fn get_skybox_display_name(stem: Option<&str>) -> (name: String)
    ensures
        name@ == skybox_display_name(stem),
{
    text_or_unknown(stem)
}

/// The kind of model file that an extension stands for: `obj` is OBJ,
/// `gltf` and `glb` are glTF, in capitals or small letters, and anything
/// else is no model.
pub fn model_format(extension: Option<&str>) -> (format: Option<ModelFormat>)
    ensures
        format == format_of(extension),
{
    match extension {
        Some(ext) => {
            if eq_ignore_ascii_case(ext, "obj") {
                Some(ModelFormat::Obj)
            } else if eq_ignore_ascii_case(ext, "gltf") || eq_ignore_ascii_case(ext, "glb") {
                Some(ModelFormat::Gltf)
            } else {
                None
            }
        },
        None => None,
    }
}

/// Whether an extension is that of an image that can serve as a skybox:
/// `jpg`, `jpeg`, `png` or `bmp`, in capitals or small letters.
pub fn is_skybox_file(ext: &str) -> (supported: bool)
    ensures
        supported == is_skybox_extension(ext),
{
    eq_ignore_ascii_case(ext, "jpg") || eq_ignore_ascii_case(ext, "jpeg") || eq_ignore_ascii_case(
        ext,
        "png",
    ) || eq_ignore_ascii_case(ext, "bmp")
}

} // verus!
