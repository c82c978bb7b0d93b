//! In-memory files: a name and a content.
use vstd::prelude::*;
use vstd::string::StrSliceExecFns;
use vstd::string::StringExecFns;

use crate::error::Error;
use crate::error::ErrorKind;
use crate::utf8::text_of;
use crate::utf8::utf8_text;

verus! {

/// In-memory representation of a file: its content and its display name.
///
/// The path the file came from is not stored.
#[derive(Clone, Debug)]
pub struct File {
    content: Vec<u8>,
    name: String,
}

/// The mathematical value of a [`File`].
pub struct FileView {
    pub content: Seq<u8>,
    pub name: Seq<char>,
}

impl View for File {
    type V = FileView;

    closed spec fn view(&self) -> FileView {
        FileView { content: self.content@, name: self.name@ }
    }
}

/// Relies on unidecode::unidecode, the nearest ASCII transliteration of a text.
pub uninterp spec fn ascii_transliteration(s: Seq<char>) -> Seq<char>;

/// Relies on unidecode::unidecode: its documentation guarantees that every
/// character of the result is ASCII (0 to 127) and that every ASCII character
/// is mapped to itself, the result being the concatenation of the
/// transliterations of the characters.
#[verifier::external_body]
fn transliterate(s: &str) -> (r: String)
    ensures
        r@ == ascii_transliteration(s@),
        forall|i: int| 0 <= i < r@.len() ==> (r@[i] as u32) < 128,
        vstd::utf8::is_ascii_chars(s@) ==> r@ == s@,
{
    unidecode::unidecode(s)
}

/// Whether `c` lies outside the printable range 32 to 127 that file names sent
/// to the service may use.
pub open spec fn is_special(c: char) -> bool {
    (c as u32) < 32 || (c as u32) > 127
}

/// `s` with every special character replaced by an underscore.
pub open spec fn replace_special(s: Seq<char>) -> Seq<char> {
    Seq::new(s.len(), |i: int| if is_special(s[i]) { '_' } else { s[i] })
}

/// The name under which a file named `name` is sent to the service.
pub open spec fn safe_name_of(name: Seq<char>) -> Seq<char> {
    replace_special(ascii_transliteration(name))
}

/// Replaces every character outside the range 32 to 127 by an underscore.
///
/// Applied to the ASCII transliteration of a file's name, this gives the
/// file's safe name.
pub fn replace_special_chars(s: &str) -> (r: String)
    ensures
        r@ == replace_special(s@),
{
    let n = s.unicode_len();
    let mut out = String::new();
    let mut i: usize = 0;
    while i < n
        invariant
            n == s@.len(),
            i <= n,
            out@ == replace_special(s@).subrange(0, i as int),
        decreases n - i,
    {
        let c = s.get_char(i);
        if (c as u32) < 32 || (c as u32) > 127 {
            proof { reveal_strlit("_"); }
            out.append("_");
        } else {
            out.append(s.substring_char(i, i + 1));
        }
        i = i + 1;
        assert(out@ =~= replace_special(s@).subrange(0, i as int));
    }
    assert(replace_special(s@).subrange(0, n as int) =~= replace_special(s@));
    out
}

fn bytes_eq(a: &[u8], b: &[u8]) -> (r: bool)
    ensures
        r == (a@ == b@),
{
    if a.len() != b.len() {
        return false;
    }
    let mut i: usize = 0;
    while i < a.len()
        invariant
            a@.len() == b@.len(),
            i <= a@.len(),
            a@.subrange(0, i as int) == b@.subrange(0, i as int),
        decreases a@.len() - i,
    {
        if a[i] != b[i] {
            assert(a@[i as int] != b@[i as int]);
            return false;
        }
        assert(a@.subrange(0, i + 1) =~= a@.subrange(0, i as int).push(a@[i as int]));
        assert(b@.subrange(0, i + 1) =~= b@.subrange(0, i as int).push(b@[i as int]));
        i = i + 1;
    }
    assert(a@ =~= a@.subrange(0, i as int));
    assert(b@ =~= b@.subrange(0, i as int));
    true
}

impl File {
    /// Whether both files have the same name and the same content.
    pub fn same_as(&self, other: &File) -> (r: bool)
        ensures
            r == (self@ == other@),
    {
        self.name == other.name && bytes_eq(self.content.as_slice(), other.content.as_slice())
    }

    /// Returns a copy of the file.
    pub fn duplicate(&self) -> (r: File)
        ensures
            r@ == self@,
    {
        File { content: vstd::slice::slice_to_vec(self.content.as_slice()), name: self.name.clone() }
    }

    /// Creates a file with the given content and name.
    pub fn from_content_with_name(content: &[u8], name: &str) -> (r: File)
        ensures
            r@.content == content@,
            r@.name == name@,
    {
        File { content: vstd::slice::slice_to_vec(content), name: name.to_owned() }
    }

    /// Returns the raw content of the file.
    pub fn content(&self) -> (r: &[u8])
        ensures
            r@ == self@.content,
    {
        self.content.as_slice()
    }

    /// Returns the content of the file as text; fails when it is not valid UTF-8.
    pub fn content_as_text(&self) -> (r: Result<&str, Error>)
        ensures
            r is Ok <==> text_of(self@.content) is Some,
            r matches Ok(t) ==> Some(t@) == text_of(self@.content),
            r matches Err(e) ==> e.kind is Decode,
    {
        match utf8_text(self.content.as_slice()) {
            Some(t) => Ok(t),
            None => Err(Error::from_kind(
                ErrorKind::Decode("failed to parse file content as UTF-8".to_owned()),
            )),
        }
    }

    /// Returns the number of bytes in the content.
    pub fn content_len(&self) -> (r: usize)
        ensures
            r == self@.content.len(),
    {
        self.content.len()
    }

    /// Returns the name of the file.
    pub fn name(&self) -> (r: &str)
        ensures
            r@ == self@.name,
    {
        self.name.as_str()
    }

    /// Returns the name transliterated to ASCII, with every character outside
    /// the printable range 32 to 127 replaced by an underscore. An ASCII name
    /// is mapped character by character.
    ///
    /// The service does not accept other characters in file names.
    pub fn safe_name(&self) -> (r: String)
        ensures
            r@ == safe_name_of(self@.name),
            forall|i: int| 0 <= i < r@.len() ==> 32 <= (#[trigger] r@[i] as u32) <= 127,
            vstd::utf8::is_ascii_chars(self@.name) ==> r@ == replace_special(self@.name),
    {
        let t = transliterate(self.name.as_str());
        replace_special_chars(t.as_str())
    }
}

/// The safe name of a file depends on its name alone: two files with the same
/// name have the same safe name, made of printable ASCII characters only.
pub proof fn law_safe_name_depends_on_name_only(a: File, b: File)
    requires
        a@.name == b@.name,
    ensures
        safe_name_of(a@.name) == safe_name_of(b@.name),
        forall|i: int|
            0 <= i < safe_name_of(a@.name).len() ==> !is_special(#[trigger] safe_name_of(a@.name)[i]),
{
}

} // verus!
