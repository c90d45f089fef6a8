//! Paths as the kernel sees them: bytes, with `/` between components.

use vstd::prelude::*;

use crate::stdtext;
use crate::stdtext::lossy_text;

verus! {

/// A path.
#[derive(Debug, PartialEq, Eq)]
pub struct PathBuf {
    pub bytes: Vec<u8>,
}

impl View for PathBuf {
    type V = Seq<u8>;

    open spec fn view(&self) -> Seq<u8> {
        self.bytes@
    }
}

/// The paths of a list, as bytes.
pub open spec fn path_bytes(paths: Seq<PathBuf>) -> Seq<Seq<u8>> {
    paths.map_values(|p: PathBuf| p@)
}

/// `base` with `part` below it; `part` alone where it is absolute.
pub open spec fn join_bytes(base: Seq<u8>, part: Seq<u8>) -> Seq<u8> {
    if absolute(part) {
        part
    } else if base.len() > 0 && base.last() != 0x2f {
        base.push(0x2f) + part
    } else {
        base + part
    }
}

/// Whether a path starts at the root.
pub open spec fn absolute(path: Seq<u8>) -> bool {
    path.len() > 0 && path[0] == 0x2f
}

impl PathBuf {
    /// The path that a text spells.
    pub fn from(text: &str) -> (path: PathBuf)
        ensures
            path@ == vstd::utf8::encode_utf8(text@),
    {
        PathBuf { bytes: text.as_bytes_vec() }
    }

    /// The same path again.
    pub fn copied(&self) -> (path: PathBuf)
        ensures
            path@ == self@,
    {
        PathBuf { bytes: vstd::slice::slice_to_vec(self.bytes.as_slice()) }
    }

    /// The path as text, with U+FFFD in place of what is no UTF-8.
    pub fn to_string_lossy(&self) -> (text: String)
        ensures
            text@ == stdtext::utf8_lossy(self@),
            vstd::utf8::valid_utf8(self@) ==> text@ == vstd::utf8::decode_utf8(self@),
    {
        lossy_text(self.bytes.as_slice())
    }

    /// Whether the path has no bytes at all.
    pub fn is_empty(&self) -> (empty: bool)
        ensures
            empty == (self@.len() == 0),
    {
        self.bytes.len() == 0
    }

    /// Whether the path starts at the root.
    pub fn is_absolute(&self) -> (is: bool)
        ensures
            is == absolute(self@),
    {
        self.bytes.len() > 0 && self.bytes[0] == 0x2f
    }

    /// This path with `part` below it; `part` alone where it is absolute.
    pub fn join(&self, part: &str) -> (path: PathBuf)
        ensures
            path@ == join_bytes(self@, vstd::utf8::encode_utf8(part@)),
    {
        let mut tail = part.as_bytes_vec();
        if tail.len() > 0 && tail[0] == 0x2f {
            return PathBuf { bytes: tail };
        }
        let mut bytes = vstd::slice::slice_to_vec(self.bytes.as_slice());
        if bytes.len() > 0 && bytes[bytes.len() - 1] != 0x2f {
            bytes.push(0x2f);
        }
        bytes.append(&mut tail);
        PathBuf { bytes }
    }
}

/// A path is its bytes, and is absolute exactly if the first of them is a separator.
pub proof fn law_absolute(path: PathBuf, rest: Seq<u8>)
    ensures
        path@ == path.bytes@,
        absolute(seq![0x2fu8] + rest),
        absolute(path@) ==> path.bytes@ == seq![0x2fu8] + path.bytes@.skip(1),
{
    if absolute(path@) {
        assert(path.bytes@ =~= seq![0x2fu8] + path.bytes@.skip(1));
    }
}

} // verus!
