use vstd::prelude::*;

verus! {

/// Why a zip archive could not be read.
#[derive(Debug)]
pub enum ZipError {
    /// A member of the archive could not be opened or read.
    IOError(String),
    /// The archive itself could not be processed.
    ProcessingError(String),
}

/// One member of a zip archive: its path inside the archive and its
/// decompressed bytes.
pub struct ZipEntry {
    pub name: String,
    pub data: Vec<u8>,
}

impl DeepView for ZipEntry {
    type V = (Seq<char>, Seq<u8>);

    open spec fn deep_view(&self) -> (Seq<char>, Seq<u8>) {
        (self.name@, self.data@)
    }
}

/// What the members of a zip archive are, in archive order, each a pair
/// of its path and its decompressed bytes; `None` where the bytes cannot
/// be read as a zip archive or a member cannot be extracted. The result
/// depends on the bytes alone.
pub uninterp spec fn zip_entries(data: Seq<u8>) -> Option<Seq<(Seq<char>, Seq<u8>)>>;

/// Relies on `zip::ZipArchive`: opens an archive over the bytes and
/// extracts every member's path and decompressed content, in archive
/// order.
#[verifier::external_body]
pub fn read_zipfile(data: &Vec<u8>) -> (r: Result<Vec<ZipEntry>, ZipError>)
    ensures
        match r {
            Ok(entries) => zip_entries(data@) == Some(entries.deep_view()),
            Err(_) => zip_entries(data@) is None,
        },
{
    let cursor = std::io::Cursor::new(data.as_slice());
    let mut archive =
        zip::ZipArchive::new(cursor).map_err(|e| ZipError::ProcessingError(format!("{}", e)))?;
    let mut entries: Vec<ZipEntry> = Vec::new();
    for i in 0..archive.len() {
        let mut file = archive.by_index(i).map_err(|e| ZipError::IOError(format!("{}", e)))?;
        let name = file.name().to_owned();
        let mut content: Vec<u8> = Vec::new();
        std::io::Read::read_to_end(&mut file, &mut content)
            .map_err(|e| ZipError::IOError(format!("{}", e)))?;
        entries.push(ZipEntry { name, data: content });
    }
    Ok(entries)
}

/// The part of a path after its last slash: the name of the file the
/// path leads to, or the empty string for a path that ends in a slash.
pub open spec fn file_name_spec(path: Seq<char>) -> Seq<char>
    decreases path.len(),
{
    if path.len() == 0 {
        Seq::empty()
    } else if path.last() == '/' {
        Seq::empty()
    } else {
        file_name_spec(path.drop_last()).push(path.last())
    }
}

proof fn lemma_file_name_after_slash(s: Seq<char>, j: int)
    requires
        0 <= j < s.len(),
        s[j] == '/',
        forall|k: int| j < k < s.len() ==> s[k] != '/',
    ensures
        file_name_spec(s) == s.skip(j + 1),
    decreases s.len(),
{
    if s.len() == j + 1 {
        assert(s.last() == '/');
        assert(s.skip(j + 1) =~= Seq::<char>::empty());
    } else {
        assert(s.last() != '/');
        lemma_file_name_after_slash(s.drop_last(), j);
        assert(s.skip(j + 1) =~= s.drop_last().skip(j + 1).push(s.last()));
    }
}

proof fn lemma_file_name_no_slash(s: Seq<char>)
    requires
        forall|k: int| 0 <= k < s.len() ==> s[k] != '/',
    ensures
        file_name_spec(s) == s,
    decreases s.len(),
{
    if s.len() > 0 {
        lemma_file_name_no_slash(s.drop_last());
        assert(s.drop_last().push(s.last()) =~= s);
    }
}

/// The name of the file a slash-separated path leads to.
pub fn file_name_of(path: &str) -> (r: &str)
    ensures
        r@ == file_name_spec(path@),
{
    let len = path.unicode_len();
    let mut j: usize = len;
    while j > 0
        invariant
            0 <= j <= len,
            len == path@.len(),
            forall|k: int| j <= k < len ==> path@[k] != '/',
        decreases j,
    {
        if path.get_char(j - 1) == '/' {
            let r = path.substring_char(j, len);
            proof {
                lemma_file_name_after_slash(path@, j - 1);
                assert(r@ =~= path@.skip(j as int));
            }
            return r;
        }
        j = j - 1;
    }
    proof {
        lemma_file_name_no_slash(path@);
    }
    path
}

} // verus!
