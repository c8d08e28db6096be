//! Asset import: which importer a file goes to, by its extension.
use vstd::prelude::*;
use crate::text::{all_ascii, ascii_lower, concat2, decimal, lowercase, owned, push_decimal, to_lowercase};

verus! {

/// Supported import formats.
#[derive(Debug, Clone, Copy, PartialEq, Eq, Structural)]
pub enum ImportFormat {
    GlTF,
    Obj,
    Stl,
    Fbx,
}

/// The format of a lower-case extension.
pub open spec fn format_for(lower: Seq<char>) -> Option<ImportFormat> {
    if lower == "gltf"@ || lower == "glb"@ {
        Some(ImportFormat::GlTF)
    } else if lower == "obj"@ {
        Some(ImportFormat::Obj)
    } else if lower == "stl"@ {
        Some(ImportFormat::Stl)
    } else if lower == "fbx"@ {
        Some(ImportFormat::Fbx)
    } else {
        None
    }
}

/// The format of a file with extension `ext`, compared without case.
pub open spec fn format_of_extension(ext: Option<Seq<char>>) -> Option<ImportFormat> {
    match ext {
        Some(e) => format_for(lowercase(e)),
        None => None,
    }
}

/// `ext` can be what std's `Path::extension` gives for `path`: nothing, or a
/// text without `.` that follows a `.` in the path.
pub open spec fn extension_fits(path: Seq<char>, ext: Option<Seq<char>>) -> bool {
    match ext {
        Some(e) => {
            &&& exists|i: int|
                0 <= i && i + e.len() + 1 <= path.len() && #[trigger] path.subrange(
                    i,
                    i + e.len() + 1,
                ) == seq!['.'] + e
            &&& !e.contains('.')
        },
        None => true,
    }
}

/// The index of the last `c` in `s`, or -1 if it has none.
pub open spec fn last_index_of(s: Seq<char>, c: char) -> int
    decreases s.len(),
{
    if s.len() == 0 {
        -1
    } else if s.last() == c {
        s.len() - 1
    } else {
        last_index_of(s.drop_last(), c)
    }
}

/// `last_index_of` is -1 or the index of an occurrence of `c`.
pub proof fn lemma_last_index_range(s: Seq<char>, c: char)
    ensures
        -1 <= last_index_of(s, c) < s.len(),
        last_index_of(s, c) >= 0 ==> s[last_index_of(s, c)] == c,
    decreases s.len(),
{
    if s.len() > 0 && s.last() != c {
        lemma_last_index_range(s.drop_last(), c);
    }
}

/// The index of the last `.` of `s`, or -1 if it has none.
pub open spec fn last_dot(s: Seq<char>) -> int {
    last_index_of(s, '.')
}

/// The extension of a file name: nothing without a `.` after its first
/// character, otherwise the text after its last `.` (empty for a name ending
/// in `.`).
pub open spec fn last_extension(name: Seq<char>) -> Option<Seq<char>> {
    let i = last_dot(name);
    if i <= 0 {
        None
    } else {
        Some(name.subrange(i + 1, name.len() as int))
    }
}

/// The file name of a `/`-separated path: its last component, where empty
/// components (repeated or trailing `/`) and `.` components are skipped;
/// nothing when no component is left or the last one is `..`.
pub open spec fn file_name_of(path: Seq<char>) -> Option<Seq<char>>
    decreases path.len(),
{
    let j = last_index_of(path, '/');
    let piece = path.subrange(j + 1, path.len() as int);
    if piece == ".."@ {
        None
    } else if piece.len() == 0 || piece == "."@ {
        if j < 0 {
            None
        } else {
            proof {
                lemma_last_index_range(path, '/');
            }
            file_name_of(path.subrange(0, j))
        }
    } else {
        Some(piece)
    }
}

/// The extension of a `/`-separated path: that of its file name.
pub open spec fn path_extension_of(path: Seq<char>) -> Option<Seq<char>> {
    match file_name_of(path) {
        Some(name) => last_extension(name),
        None => None,
    }
}

/// A path that std reads the same way on every platform: no `\` and no
/// `:` (Windows separators and drive prefixes), and no leading `//` (a
/// Windows network prefix). Only `/` separates its components.
pub open spec fn plain_path(path: Seq<char>) -> bool {
    &&& !path.contains('\\')
    &&& !path.contains(':')
    &&& !(path.len() >= 2 && path[0] == '/' && path[1] == '/')
}

/// std's `Path::extension` of `path`, taken as text (the path is UTF-8, so
/// every part of it is too). For a plain path the result is the one std
/// documents for `Path::file_name` and `Path::extension`: the extension of
/// the last normal component, as `path_extension_of` states. For a path with
/// `\`, `:` or a leading `//` the components depend on the platform and the
/// result is not stated beyond what holds of every outcome: an extension
/// follows a `.` of the path and holds no `.`.
#[verifier::external_body]
fn path_extension(path: &str) -> (r: Option<String>)
    ensures
        extension_fits(path@, match r {
            Some(e) => Some(e@),
            None => None,
        }),
        plain_path(path@) ==> match r {
            Some(e) => Some(e@),
            None => None,
        } == path_extension_of(path@),
{
    std::path::Path::new(path).extension().and_then(|e| e.to_str()).map(|e| e.to_string())
}

/// The kind of file a mesh was imported from.
#[derive(Debug, Clone, Copy, PartialEq, Eq, Structural)]
pub enum MeshSource {
    GlTF,
    Obj,
    Stl,
}

/// The name an imported mesh gets: the name the file gives it, or else
/// `Mesh_<index>` for a glTF node, `OBJ_Mesh_<index>` for an OBJ model (an
/// empty model name counts as none) and `STL_Mesh` for an STL file.
pub open spec fn mesh_name_text(source: MeshSource, given: Option<Seq<char>>, index: nat) -> Seq<char> {
    match source {
        MeshSource::GlTF => match given {
            Some(n) => n,
            None => "Mesh_"@ + decimal(index),
        },
        MeshSource::Obj => match given {
            Some(n) => if n.len() > 0 {
                n
            } else {
                "OBJ_Mesh_"@ + decimal(index)
            },
            None => "OBJ_Mesh_"@ + decimal(index),
        },
        MeshSource::Stl => match given {
            Some(n) => n,
            None => "STL_Mesh"@,
        },
    }
}

/// The name of the `index`-th mesh of a file of kind `source`, given the name
/// the file holds for it, if any.
pub fn mesh_name(source: MeshSource, given: Option<&str>, index: usize) -> (r: String)
    ensures
        r@ == mesh_name_text(
            source,
            match given {
                Some(n) => Some(n@),
                None => None,
            },
            index as nat,
        ),
{
    let own = match given {
        Some(n) => match source {
            MeshSource::Obj => n.unicode_len() > 0,
            _ => true,
        },
        None => false,
    };
    match given {
        Some(n) if own => owned(n),
        _ => match source {
            MeshSource::GlTF => {
                let mut r = owned("Mesh_");
                push_decimal(&mut r, index as u64);
                r
            },
            MeshSource::Obj => {
                let mut r = owned("OBJ_Mesh_");
                push_decimal(&mut r, index as u64);
                r
            },
            MeshSource::Stl => owned("STL_Mesh"),
        },
    }
}

impl ImportFormat {
    /// The format of a file with extension `ext`, compared without case.
    pub fn from_extension(ext: Option<&str>) -> (r: Option<Self>)
        ensures
            r == format_of_extension(
                match ext {
                    Some(e) => Some(e@),
                    None => None,
                },
            ),
            ext matches Some(e) ==> (all_ascii(e@) ==> r == format_for(
                e@.map_values(|c: char| ascii_lower(c)),
            )),
    {
        match ext {
            Some(e) => {
                let lower = to_lowercase(e);
                proof {
                    reveal_strlit("gltf");
                    reveal_strlit("glb");
                    reveal_strlit("obj");
                    reveal_strlit("stl");
                    reveal_strlit("fbx");
                }
                let l = lower.as_str();
                if crate::text::str_eq(l, "gltf") || crate::text::str_eq(l, "glb") {
                    Some(ImportFormat::GlTF)
                } else if crate::text::str_eq(l, "obj") {
                    Some(ImportFormat::Obj)
                } else if crate::text::str_eq(l, "stl") {
                    Some(ImportFormat::Stl)
                } else if crate::text::str_eq(l, "fbx") {
                    Some(ImportFormat::Fbx)
                } else {
                    None
                }
            },
            None => None,
        }
    }

    /// Detects the format from the file's extension, compared without case:
    /// the text after the last `.` of the path's file name.
    pub fn from_path(path: &str) -> (r: Option<Self>)
        ensures
            exists|ext: Option<Seq<char>>|
                #[trigger] extension_fits(path@, ext) && r == format_of_extension(ext),
            plain_path(path@) ==> r == format_of_extension(path_extension_of(path@)),
            plain_path(path@) && all_ascii(path@) ==> r == match path_extension_of(path@) {
                Some(e) => format_for(e.map_values(|c: char| ascii_lower(c))),
                None => None,
            },
    {
        let ext = path_extension(path);
        match ext {
            Some(e) => {
                proof {
                    if all_ascii(path@) {
                        let i = choose|i: int|
                            0 <= i && i + e@.len() + 1 <= path@.len() && #[trigger] path@.subrange(
                                i,
                                i + e@.len() + 1,
                            ) == seq!['.'] + e@;
                        assert forall|k: int| 0 <= k < e@.len() implies (#[trigger] e@[k] as u32)
                            < 128 by {
                            assert(path@.subrange(i, i + e@.len() + 1)[k + 1] == e@[k]);
                        }
                    }
                }
                let r = ImportFormat::from_extension(Some(e.as_str()));
                assert(extension_fits(path@, Some(e@)));
                r
            },
            None => {
                assert(extension_fits(path@, None));
                None
            },
        }
    }
}

/// The message for a file whose format is known but has no importer.
pub open spec fn fbx_unsupported_text() -> Seq<char> {
    "FBX import not yet implemented (fbxcel-dom maturity concerns \u{2014} see DEC-003)"@
}

/// Where a file of the detected `format` goes: the importer of its kind, or
/// the error text (FBX has no importer; an unknown extension is reported with
/// `ext_debug`, its debug form).
pub open spec fn importer_outcome(format: Option<ImportFormat>, ext_debug: Seq<char>) -> Result<
    MeshSource,
    Seq<char>,
> {
    match format {
        Some(ImportFormat::GlTF) => Ok(MeshSource::GlTF),
        Some(ImportFormat::Obj) => Ok(MeshSource::Obj),
        Some(ImportFormat::Stl) => Ok(MeshSource::Stl),
        Some(ImportFormat::Fbx) => Err(fbx_unsupported_text()),
        None => Err("unrecognised file extension: "@ + ext_debug),
    }
}

/// A result with its error taken as text.
pub open spec fn outcome_view(r: Result<MeshSource, String>) -> Result<MeshSource, Seq<char>> {
    match r {
        Ok(m) => Ok(m),
        Err(e) => Err(e@),
    }
}

/// The importer for the file at `path`, chosen by its extension as
/// `ImportFormat::from_path` detects it; `ext_debug` is the debug form of the
/// extension, quoted in the error for an unknown one.
pub fn importer_for(path: &str, ext_debug: &str) -> (r: Result<MeshSource, String>)
    ensures
        exists|ext: Option<Seq<char>>|
            #[trigger] extension_fits(path@, ext) && outcome_view(r) == importer_outcome(
                format_of_extension(ext),
                ext_debug@,
            ),
        plain_path(path@) ==> outcome_view(r) == importer_outcome(
            format_of_extension(path_extension_of(path@)),
            ext_debug@,
        ),
{
    let format = ImportFormat::from_path(path);
    let ghost ext = choose|ext: Option<Seq<char>>|
        #[trigger] extension_fits(path@, ext) && format == format_of_extension(ext);
    let r = match format {
        Some(ImportFormat::GlTF) => Ok(MeshSource::GlTF),
        Some(ImportFormat::Obj) => Ok(MeshSource::Obj),
        Some(ImportFormat::Stl) => Ok(MeshSource::Stl),
        Some(ImportFormat::Fbx) => Err(
            owned("FBX import not yet implemented (fbxcel-dom maturity concerns \u{2014} see DEC-003)"),
        ),
        None => Err(concat2("unrecognised file extension: ", ext_debug)),
    };
    assert(extension_fits(path@, ext));
    r
}

} // verus!
