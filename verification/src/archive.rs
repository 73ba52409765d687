//! Reading the bundled runtime archive (a zip file held in memory), entry by
//! entry, for extraction.

use vstd::prelude::*;
use crate::error::{Error, io_error_text};
use crate::paths::{FsPath, is_separator, is_within};
use crate::text::{chars_of, ends_with_char};

verus! {

/// `std::io::Cursor`, carried through as an opaque value.
#[verifier::external_type_specification]
#[verifier::external_body]
#[verifier::reject_recursive_types(T)]
pub struct ExCursor<T>(std::io::Cursor<T>);

/// `zip::ZipArchive`, carried through as an opaque value.
#[verifier::external_type_specification]
#[verifier::external_body]
#[verifier::reject_recursive_types(R)]
pub struct ExZipArchive<R>(zip::ZipArchive<R>);

/// `zip::result::ZipError`, carried through as an opaque value.
#[verifier::external_type_specification]
#[verifier::external_body]
pub struct ExZipError(zip::result::ZipError);

/// An archive read from bytes held in memory.
pub type RuntimeArchive = zip::ZipArchive<std::io::Cursor<Vec<u8>>>;

/// What an archive holds, in central-directory order: for each entry its
/// name, whether it can be opened (`by_index` succeeds), and its content
/// when that content decompresses (`read_to_end` succeeds).
pub uninterp spec fn zip_entries(a: zip::ZipArchive<std::io::Cursor<Vec<u8>>>) -> Seq<
    (Seq<char>, bool, Option<Seq<u8>>),
>;

/// What `ZipArchive::new` reads from a byte string: the entries it lists, or
/// `None` when the bytes are not a zip archive it can read.
pub uninterp spec fn zip_read(bytes: Seq<u8>) -> Option<Seq<(Seq<char>, bool, Option<Seq<u8>>)>>;

/// Calls `ZipArchive::new` on an in-memory copy of `bytes`. Trusted: the
/// archive opens exactly when `zip_read` gives entries, and then holds them.
#[verifier::external_body]
fn zip_open(bytes: &[u8]) -> (r: Result<RuntimeArchive, zip::result::ZipError>)
    ensures
        match zip_read(bytes@) {
            Some(es) => r matches Ok(a) && zip_entries(a) == es,
            None => r is Err,
        },
{
    zip::ZipArchive::new(std::io::Cursor::new(bytes.to_vec()))
}

/// Calls `ZipArchive::len`. Trusted: the number of entries.
#[verifier::external_body]
fn zip_len(a: &RuntimeArchive) -> (r: usize)
    ensures
        r == zip_entries(*a).len(),
{
    a.len()
}

/// Calls `ZipArchive::by_index` and, on success, `ZipFile::name`. Trusted:
/// the entry opens exactly when it exists and can be opened, its name is the
/// listed one, and the entries are unchanged (only the reader position moves).
#[verifier::external_body]
fn zip_entry_name(a: &mut RuntimeArchive, i: usize) -> (r: Result<String, zip::result::ZipError>)
    ensures
        zip_entries(*final(a)) == zip_entries(*old(a)),
        r is Ok <==> (i < zip_entries(*old(a)).len() && zip_entries(*old(a))[i as int].1),
        r matches Ok(n) ==> n@ == zip_entries(*old(a))[i as int].0,
{
    match a.by_index(i) {
        Ok(f) => Ok(f.name().to_string()),
        Err(e) => Err(e),
    }
}

/// Calls `ZipArchive::by_index` and, on success, `Read::read_to_end` on the
/// entry. Trusted: the outer result is `Ok` exactly when the entry opens, the
/// inner one exactly when its content decompresses, and then it is the listed
/// content; the entries are unchanged.
#[verifier::external_body]
fn zip_entry_data(a: &mut RuntimeArchive, i: usize) -> (r: Result<
    Result<Vec<u8>, std::io::Error>,
    zip::result::ZipError,
>)
    ensures
        zip_entries(*final(a)) == zip_entries(*old(a)),
        r is Ok <==> (i < zip_entries(*old(a)).len() && zip_entries(*old(a))[i as int].1),
        r matches Ok(d) ==> (d is Ok <==> zip_entries(*old(a))[i as int].2 is Some),
        r matches Ok(Ok(d)) ==> d@ == zip_entries(*old(a))[i as int].2->0,
{
    match a.by_index(i) {
        Ok(mut f) => {
            let mut buf: Vec<u8> = Vec::new();
            match std::io::Read::read_to_end(&mut f, &mut buf) {
                Ok(_) => Ok(Ok(buf)),
                Err(e) => Ok(Err(e)),
            }
        },
        Err(e) => Err(e),
    }
}

/// Formats a `ZipError` with its `Display` impl. Nothing is promised of the text.
#[verifier::external_body]
fn zip_error_text(e: &zip::result::ZipError) -> String {
    format!("{}", e)
}

/// Opens the runtime archive held in `bytes`; a failure is a `Zip` error.
pub fn open_archive(bytes: &[u8]) -> (r: Result<RuntimeArchive, Error>)
    ensures
        match zip_read(bytes@) {
            Some(es) => r matches Ok(a) && zip_entries(a) == es,
            None => r matches Err(Error::Zip(_)),
        },
{
    match zip_open(bytes) {
        Ok(a) => Ok(a),
        Err(e) => Err(Error::Zip(zip_error_text(&e))),
    }
}

/// The number of entries in the archive.
pub fn entry_count(a: &RuntimeArchive) -> (r: usize)
    ensures
        r == zip_entries(*a).len(),
{
    zip_len(a)
}

/// What an archive entry becomes on disk.
#[derive(Debug)]
pub enum EntryKind {
    /// A directory (its name ends with `/`), created with its parents.
    Dir(String),
    /// A file, written below the destination.
    File(String),
}

/// Entry `i` of the archive, told apart by its name: a name that ends with
/// `/` is a directory, any other a file. An entry that cannot be opened is a
/// `Zip` error.
pub fn entry_kind(a: &mut RuntimeArchive, i: usize) -> (r: Result<EntryKind, Error>)
    ensures
        zip_entries(*final(a)) == zip_entries(*old(a)),
        ({
            let es = zip_entries(*old(a));
            if i < es.len() && es[i as int].1 {
                let name = es[i as int].0;
                if name.len() > 0 && name.last() == '/' {
                    r matches Ok(EntryKind::Dir(n)) && n@ == name
                } else {
                    r matches Ok(EntryKind::File(n)) && n@ == name
                }
            } else {
                r matches Err(Error::Zip(_))
            }
        }),
{
    match zip_entry_name(a, i) {
        Ok(name) => {
            if ends_with_char(name.as_str(), '/') {
                Ok(EntryKind::Dir(name))
            } else {
                Ok(EntryKind::File(name))
            }
        },
        Err(e) => Err(Error::Zip(zip_error_text(&e))),
    }
}

/// A `..` component of `name` starts at position `i`.
pub open spec fn parent_component_at(name: Seq<char>, i: int) -> bool {
    &&& 0 <= i
    &&& i + 2 <= name.len()
    &&& name[i] == '.'
    &&& name[i + 1] == '.'
    &&& (i == 0 || is_separator(name[i - 1]))
    &&& (i + 2 == name.len() || is_separator(name[i + 2]))
}

/// An entry name that stays below the directory it is joined onto: it has no
/// root (it does not start with a separator), no drive or other prefix (no
/// `:` anywhere), and no `..` component.
pub open spec fn is_enclosed_name(name: Seq<char>) -> bool {
    &&& !(name.len() > 0 && is_separator(name[0]))
    &&& forall|i: int| 0 <= i < name.len() ==> name[i] != ':'
    &&& forall|i: int| !#[trigger] parent_component_at(name, i)
}

/// Written out character by character: `name` does not start with `/` or
/// `\\`, holds no `:`, and every `..` in it sits inside a longer component
/// (a character other than a separator stands right before or right after).
pub open spec fn relative_without_parent_steps(name: Seq<char>) -> bool {
    &&& (name.len() == 0 || (name[0] != '/' && name[0] != '\\'))
    &&& forall|i: int| 0 <= i < name.len() ==> #[trigger] name[i] != ':'
    &&& forall|i: int|
        0 <= i && i + 1 < name.len() && #[trigger] name[i] == '.' && name[i + 1] == '.' ==> (
        (i > 0 && name[i - 1] != '/' && name[i - 1] != '\\') || (i + 2 < name.len() && name[i
            + 2] != '/' && name[i + 2] != '\\'))
}

/// Which entry names are extracted: every relative name without `:` and
/// without a `..` component is accepted (whatever else its components hold,
/// `-` and `_` and dots included), and a name with a root, a `:` or a `..`
/// component is refused.
pub proof fn lemma_enclosed_names(name: Seq<char>)
    ensures
        relative_without_parent_steps(name) ==> is_enclosed_name(name),
        name.len() > 0 && (name[0] == '/' || name[0] == '\\') ==> !is_enclosed_name(name),
        forall|i: int| 0 <= i < name.len() && #[trigger] name[i] == ':' ==> !is_enclosed_name(name),
        name == seq!['.', '.'] ==> !is_enclosed_name(name),
        forall|i: int|
            0 <= i && i + 2 < name.len() && #[trigger] name[i] == '.' && name[i + 1] == '.' && (i
                == 0 || name[i - 1] == '/') && name[i + 2] == '/' ==> !is_enclosed_name(name),
{
    if relative_without_parent_steps(name) {
        assert forall|i: int| !#[trigger] parent_component_at(name, i) by {
            if parent_component_at(name, i) {
                assert(name[i] == '.');
            }
        }
    }
    assert forall|i: int|
        0 <= i && i + 2 < name.len() && #[trigger] name[i] == '.' && name[i + 1] == '.' && (i == 0
            || name[i - 1] == '/') && name[i + 2] == '/' implies !is_enclosed_name(name) by {
        assert(parent_component_at(name, i));
    }
    if name == seq!['.', '.'] {
        assert(parent_component_at(name, 0));
    }
}

fn is_separator_char(c: char) -> (r: bool)
    ensures
        r == is_separator(c),
{
    c == '/' || c == '\\'
}

/// Whether the entry name stays below the directory it is joined onto.
pub fn enclosed_name(name: &str) -> (r: bool)
    ensures
        r == is_enclosed_name(name@),
{
    let v = chars_of(name);
    let n = v.len();
    if n > 0 && is_separator_char(v[0]) {
        return false;
    }
    let mut i: usize = 0;
    while i < n
        invariant
            v@ == name@,
            n == v@.len(),
            i <= n,
            !(n > 0 && is_separator(name@[0])),
            forall|j: int| 0 <= j < i ==> name@[j] != ':',
            forall|j: int| 0 <= j < i ==> !#[trigger] parent_component_at(name@, j),
        decreases n - i,
    {
        if v[i] == ':' {
            return false;
        }
        if i + 1 < n && v[i] == '.' && v[i + 1] == '.' && (i == 0 || is_separator_char(v[i - 1]))
            && (i + 2 == n || is_separator_char(v[i + 2])) {
            assert(parent_component_at(name@, i as int));
            return false;
        }
        assert(!parent_component_at(name@, i as int));
        i = i + 1;
    }
    assert forall|j: int| !#[trigger] parent_component_at(name@, j) by {
        if 0 <= j < n {
        }
    }
    true
}

/// Where an entry goes: its name joined onto the destination, as `Path::join`
/// does. A name that would lead outside the destination (see
/// `is_enclosed_name`) is refused with a `Zip` error, so every path given
/// back lies below the destination.
pub fn entry_path(destination: &FsPath, name: &str) -> (r: Result<FsPath, Error>)
    ensures
        is_enclosed_name(name@) ==> (r matches Ok(p) && p@ == (
            destination@.0,
            destination@.1.push(name@),
        ) && is_within(p@, destination@)),
        !is_enclosed_name(name@) ==> (r matches Err(Error::Zip(m)) && m@
            == "entry name leads outside the destination: "@ + name@),
        relative_without_parent_steps(name@) ==> (r matches Ok(p) && p@ == (
            destination@.0,
            destination@.1.push(name@),
        )),
{
    proof {
        lemma_enclosed_names(name@);
    }
    if enclosed_name(name) {
        let p = destination.duplicate().join(name);
        assert(p@.1.subrange(0, destination@.1.len() as int) =~= destination@.1);
        Ok(p)
    } else {
        Err(
            Error::Zip(
                String::from_str("entry name leads outside the destination: ").concat(name),
            ),
        )
    }
}

/// The decompressed content of entry `i`; an entry that cannot be opened or
/// read is a `Zip` error.
pub fn entry_contents(a: &mut RuntimeArchive, i: usize) -> (r: Result<Vec<u8>, Error>)
    ensures
        zip_entries(*final(a)) == zip_entries(*old(a)),
        ({
            let es = zip_entries(*old(a));
            if i < es.len() && es[i as int].1 && es[i as int].2 is Some {
                r matches Ok(d) && d@ == es[i as int].2->0
            } else {
                r matches Err(Error::Zip(_))
            }
        }),
{
    match zip_entry_data(a, i) {
        Ok(Ok(data)) => Ok(data),
        Ok(Err(e)) => Err(Error::Zip(io_error_text(&e))),
        Err(e) => Err(Error::Zip(zip_error_text(&e))),
    }
}

} // verus!
