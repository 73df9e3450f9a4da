use vstd::prelude::*;

use crate::importing::csv::{
    csv_data_result, csv_err_matches, read_csv_messages, CsvError, CsvErrorView,
};
use crate::importing::zip::{file_name_spec, read_zipfile, zip_entries, ZipError};
use crate::models::message::{Message, MessageView};
use crate::text::str_eq;

pub mod csv;
pub mod zip;

verus! {

/// Why an import run failed.
#[derive(Debug)]
pub enum ImportingError {
    /// The path handed to the import does not exist.
    FileNotFound(String),
    /// A CSV source under the path failed to parse.
    Csv(CsvError),
    /// A zip archive under the path failed to open or read.
    Zip(ZipError),
}

/// The mathematical image of an [`ImportingError`]. A zip failure
/// carries no payload: its wording comes from the archive reader and is
/// not pinned.
pub enum ImportErrorView {
    FileNotFound(Seq<char>),
    Csv(CsvErrorView),
    ZipFailure,
}

/// Whether an error value renders the modelled error.
pub open spec fn import_err_matches(e: ImportingError, v: ImportErrorView) -> bool {
    match v {
        ImportErrorView::FileNotFound(p) => e matches ImportingError::FileNotFound(q) && q@ == p,
        ImportErrorView::Csv(cv) => e matches ImportingError::Csv(ce) && csv_err_matches(ce, cv),
        ImportErrorView::ZipFailure => e matches ImportingError::Zip(_),
    }
}

/// One regular file found under the import path: its file name (the
/// final path component) and its bytes.
pub struct FileEntry {
    pub name: String,
    pub data: Vec<u8>,
}

impl DeepView for FileEntry {
    type V = (Seq<char>, Seq<u8>);

    open spec fn deep_view(&self) -> (Seq<char>, Seq<u8>) {
        (self.name@, self.data@)
    }
}

/// Whether the last three characters of an extension spell `zip` in any
/// case.
pub open spec fn ext_is_zip(e: Seq<char>) -> bool {
    e.len() == 3 && (e[0] == 'z' || e[0] == 'Z') && (e[1] == 'i' || e[1] == 'I') && (e[2] == 'p'
        || e[2] == 'P')
}

/// Whether a file name carries the extension `zip`, compared without
/// regard to case: the part after the last dot, the dot not being the
/// first character.
pub open spec fn zip_ext(name: Seq<char>) -> bool {
    exists|i: int|
        1 <= i < name.len() && name[i] == '.' && (forall|k: int|
            i < k < name.len() ==> name[k] != '.') && ext_is_zip(name.skip(i + 1))
}

/// Whether a file name carries the extension `zip`, without regard to
/// case.
pub fn is_zip_file(name: &str) -> (r: bool)
    ensures
        r == zip_ext(name@),
{
    let len = name.unicode_len();
    let mut j: usize = len;
    while j > 1
        invariant
            1 <= j <= len || (len < 1 && j == len),
            len == name@.len(),
            forall|k: int| j <= k < len ==> name@[k] != '.',
        decreases j,
    {
        if name.get_char(j - 1) == '.' {
            proof {
                assert(name@[j - 1] == '.');
                assert forall|i: int|
                    1 <= i < len && name@[i] == '.' && (forall|k: int|
                        i < k < len ==> name@[k] != '.') implies i == j - 1 by {
                    if i < j - 1 {
                        assert(name@[j - 1] == '.');
                    } else if i > j - 1 {
                        assert(name@[i] != '.');
                    }
                }
            }
            if len - j != 3 {
                return false;
            }
            let c0 = name.get_char(j);
            let c1 = name.get_char(j + 1);
            let c2 = name.get_char(j + 2);
            let ok = (c0 == 'z' || c0 == 'Z') && (c1 == 'i' || c1 == 'I') && (c2 == 'p' || c2
                == 'P');
            proof {
                let e = name@.skip(j as int);
                assert(e.len() == 3);
                assert(e[0] == name@[j as int]);
                assert(e[1] == name@[j + 1]);
                assert(e[2] == name@[j + 2]);
                if ok {
                    assert(zip_ext(name@)) by {
                        assert(1 <= j - 1 < len && name@[j - 1] == '.' && (forall|k: int|
                            j - 1 < k < len ==> name@[k] != '.') && ext_is_zip(
                            name@.skip(j as int),
                        ));
                    }
                }
            }
            return ok;
        }
        j = j - 1;
    }
    proof {
        assert(!zip_ext(name@));
    }
    false
}

/// Lift a CSV outcome into the import error space.
pub open spec fn lift_csv(r: Result<Seq<MessageView>, CsvErrorView>) -> Result<
    Seq<MessageView>,
    ImportErrorView,
> {
    match r {
        Ok(ms) => Ok(ms),
        Err(e) => Err(ImportErrorView::Csv(e)),
    }
}

/// A parsed prefix joined with the outcome of the remaining sources.
pub open spec fn import_combine(
    pre: Seq<MessageView>,
    r: Result<Seq<MessageView>, ImportErrorView>,
) -> Result<Seq<MessageView>, ImportErrorView> {
    match r {
        Ok(ms) => Ok(pre + ms),
        Err(e) => Err(e),
    }
}

/// What one archive member contributes: the messages of its CSV content
/// where the member's file name is exactly `messages.csv`, and nothing
/// otherwise.
pub open spec fn entry_result(name: Seq<char>, data: Seq<u8>) -> Result<
    Seq<MessageView>,
    ImportErrorView,
> {
    if file_name_spec(name) == "messages.csv"@ {
        lift_csv(csv_data_result(data))
    } else {
        Ok(Seq::empty())
    }
}

/// What the members of an archive contribute together, in archive
/// order, the first failure aborting the whole read.
pub open spec fn entries_result(es: Seq<(Seq<char>, Seq<u8>)>) -> Result<
    Seq<MessageView>,
    ImportErrorView,
>
    decreases es.len(),
{
    if es.len() == 0 {
        Ok(Seq::empty())
    } else {
        match entry_result(es[0].0, es[0].1) {
            Ok(ms) => import_combine(ms, entries_result(es.skip(1))),
            Err(e) => Err(e),
        }
    }
}

/// What a zip archive contributes: the joined contributions of its
/// members, or a failure where the archive cannot be read.
pub open spec fn zip_file_result(data: Seq<u8>) -> Result<Seq<MessageView>, ImportErrorView> {
    match zip_entries(data) {
        Some(es) => entries_result(es),
        None => Err(ImportErrorView::ZipFailure),
    }
}

/// What one regular file contributes: a file named exactly
/// `messages.csv` is read as CSV, a file with the extension `zip` (in
/// any case) is read as an archive, and any other file is silently
/// ignored.
pub open spec fn file_result(name: Seq<char>, data: Seq<u8>) -> Result<
    Seq<MessageView>,
    ImportErrorView,
> {
    if name == "messages.csv"@ {
        lift_csv(csv_data_result(data))
    } else if zip_ext(name) {
        zip_file_result(data)
    } else {
        Ok(Seq::empty())
    }
}

/// What the files under the import path contribute together, in
/// traversal order, the first failure aborting the whole run.
pub open spec fn files_result(fs: Seq<(Seq<char>, Seq<u8>)>) -> Result<
    Seq<MessageView>,
    ImportErrorView,
>
    decreases fs.len(),
{
    if fs.len() == 0 {
        Ok(Seq::empty())
    } else {
        match file_result(fs[0].0, fs[0].1) {
            Ok(ms) => import_combine(ms, files_result(fs.skip(1))),
            Err(e) => Err(e),
        }
    }
}

/// Read every message a zip archive contributes: each member whose file
/// name is exactly `messages.csv` is parsed as CSV.
fn read_zip_messages(data: &Vec<u8>) -> (r: Result<Vec<Message>, ImportingError>)
    ensures
        match r {
            Ok(msgs) => zip_file_result(data@) == Ok::<Seq<MessageView>, ImportErrorView>(
                msgs.deep_view(),
            ) && (forall|k: int| 0 <= k < msgs.len() ==> (#[trigger] msgs[k]).wf()),
            Err(e) => zip_file_result(data@) matches Err(ev) && import_err_matches(e, ev),
        },
{
    let entries = match read_zipfile(data) {
        Ok(entries) => entries,
        Err(e) => {
            return Err(ImportingError::Zip(e));
        },
    };
    let ghost es = entries.deep_view();
    let mut msgs: Vec<Message> = Vec::new();
    let mut i: usize = 0;
    proof {
        assert(es.skip(0) =~= es);
    }
    while i < entries.len()
        invariant
            0 <= i <= entries.len(),
            es == entries.deep_view(),
            es.len() == entries.len(),
            zip_entries(data@) == Some(es),
            forall|k: int| 0 <= k < msgs.len() ==> (#[trigger] msgs[k]).wf(),
            entries_result(es) == import_combine(
                msgs.deep_view(),
                entries_result(es.skip(i as int)),
            ),
        decreases entries.len() - i,
    {
        proof {
            assert(es.skip(i as int).len() > 0);
            assert(es.skip(i as int)[0] == es[i as int]);
            assert(es.skip(i as int).skip(1) =~= es.skip(i as int + 1));
            assert(es[i as int] == entries@[i as int].deep_view());
        }
        let entry = &entries[i];
        let fname = crate::importing::zip::file_name_of(entry.name.as_str());
        let mut part: Vec<Message> = if str_eq(fname, "messages.csv") {
            match read_csv_messages(&entry.data) {
                Ok(ms) => ms,
                Err(e) => {
                    return Err(ImportingError::Csv(e));
                },
            }
        } else {
            Vec::new()
        };
        let ghost old_msgs = msgs.deep_view();
        let ghost part_v = part.deep_view();
        msgs.append(&mut part);
        proof {
            assert(msgs.deep_view() =~= old_msgs + part_v);
            match entries_result(es.skip(i as int + 1)) {
                Ok(ms) => {
                    assert(old_msgs + (part_v + ms) =~= (old_msgs + part_v) + ms);
                },
                Err(_) => {},
            }
        }
        i = i + 1;
    }
    proof {
        assert(es.skip(i as int).len() == 0);
        assert(msgs.deep_view() + Seq::<MessageView>::empty() =~= msgs.deep_view());
    }
    Ok(msgs)
}

/// Read every message found under an import path whose regular files
/// were gathered into `files`, each entry carrying the file's name and
/// bytes in traversal order: a file named exactly `messages.csv` is
/// parsed as CSV, a file with the extension `zip` (in any case) is
/// scanned for members named `messages.csv`, and any other file is
/// silently ignored. A path that does not exist fails with
/// [`ImportingError::FileNotFound`] naming the path.
pub fn read_files(path: &str, path_exists: bool, files: &Vec<FileEntry>) -> (r: Result<
    Vec<Message>,
    ImportingError,
>)
    ensures
        !path_exists ==> (r matches Err(e) && e matches ImportingError::FileNotFound(p) && p@
            == path@),
        path_exists ==> match r {
            Ok(msgs) => files_result(files.deep_view()) == Ok::<Seq<MessageView>, ImportErrorView>(
                msgs.deep_view(),
            ) && (forall|k: int| 0 <= k < msgs.len() ==> (#[trigger] msgs[k]).wf()),
            Err(e) => files_result(files.deep_view()) matches Err(ev) && import_err_matches(e, ev),
        },
{
    if !path_exists {
        return Err(ImportingError::FileNotFound(path.to_owned()));
    }
    let ghost fs = files.deep_view();
    let mut msgs: Vec<Message> = Vec::new();
    let mut i: usize = 0;
    proof {
        assert(fs.skip(0) =~= fs);
    }
    while i < files.len()
        invariant
            path_exists,
            0 <= i <= files.len(),
            fs == files.deep_view(),
            fs.len() == files.len(),
            forall|k: int| 0 <= k < msgs.len() ==> (#[trigger] msgs[k]).wf(),
            files_result(fs) == import_combine(msgs.deep_view(), files_result(fs.skip(i as int))),
        decreases files.len() - i,
    {
        proof {
            assert(fs.skip(i as int).len() > 0);
            assert(fs.skip(i as int)[0] == fs[i as int]);
            assert(fs.skip(i as int).skip(1) =~= fs.skip(i as int + 1));
            assert(fs[i as int] == files@[i as int].deep_view());
        }
        let entry = &files[i];
        let mut part: Vec<Message> = if str_eq(entry.name.as_str(), "messages.csv") {
            match read_csv_messages(&entry.data) {
                Ok(ms) => ms,
                Err(e) => {
                    return Err(ImportingError::Csv(e));
                },
            }
        } else if is_zip_file(entry.name.as_str()) {
            match read_zip_messages(&entry.data) {
                Ok(ms) => ms,
                Err(e) => {
                    return Err(e);
                },
            }
        } else {
            Vec::new()
        };
        let ghost old_msgs = msgs.deep_view();
        let ghost part_v = part.deep_view();
        msgs.append(&mut part);
        proof {
            assert(msgs.deep_view() =~= old_msgs + part_v);
            match files_result(fs.skip(i as int + 1)) {
                Ok(ms) => {
                    assert(old_msgs + (part_v + ms) =~= (old_msgs + part_v) + ms);
                },
                Err(_) => {},
            }
        }
        i = i + 1;
    }
    proof {
        assert(fs.skip(i as int).len() == 0);
        assert(msgs.deep_view() + Seq::<MessageView>::empty() =~= msgs.deep_view());
    }
    Ok(msgs)
}

} // verus!
