//! The bundled example tools' data and rules: argument types, the path
//! guards of directory listing, and the text a read file or a listing
//! renders to. The file system calls themselves happen outside; their
//! outcomes come in as plain values.
use vstd::prelude::*;
use vstd::string::StrSliceExecFns;
use vstd::string::StringExecFns;

use hxd::AsHexd;

use crate::text::eq_str;
use crate::text::join_lines;
use crate::text::spec_dec;
use crate::text::spec_join_lines;
use crate::text::spec_split;
use crate::text::split_at_char;
use crate::text::u64_to_dec;

verus! {

/// The argument of the file-reading tool: the path to read, as text.
pub struct ReadFileToolArgs {
    pub file_path: String,
}

/// The file-reading tool itself carries no state.
#[derive(Debug, Clone, Default)]
pub struct ReadFileTool;

/// The directory-listing tool: rooted at a directory, it lists paths
/// relative to that root.
pub struct ListDirectoryTool {
    pub relative_path: String,
}

impl ListDirectoryTool {
    /// A listing tool rooted at `path`.
    pub fn new_root(path: String) -> (r: ListDirectoryTool)
        ensures
            r.relative_path == path,
    {
        ListDirectoryTool { relative_path: path }
    }
}

/// The hex rendering that hxd gives a byte sequence.
pub uninterp spec fn hex_dump_of(b: Seq<u8>) -> Seq<char>;

/// Relies on hxd's `AsHexd::hexd` with `dump_to::<String>`: the rendering
/// is a function of the bytes alone.
#[verifier::external_body]
fn hex_dump(bytes: &Vec<u8>) -> (r: String)
    ensures
        r@ == hex_dump_of(bytes@),
{
    bytes.hexd().dump_to::<String>()
}

/// Relies on `String::from_utf8`: valid UTF-8 decodes to exactly its
/// characters, and anything else comes back unchanged as bytes.
#[verifier::external_body]
fn utf8_to_string(bytes: Vec<u8>) -> (r: Result<String, Vec<u8>>)
    ensures
        match r {
            Ok(s) => vstd::utf8::valid_utf8(bytes@) && s@ == vstd::utf8::decode_utf8(bytes@),
            Err(b) => !vstd::utf8::valid_utf8(bytes@) && b@ == bytes@,
        },
{
    match String::from_utf8(bytes) {
        Ok(s) => Ok(s),
        Err(e) => Err(e.into_bytes()),
    }
}

/// The tool-visible text of a read file: its contents where they are
/// valid UTF-8, a hex dump otherwise.
pub open spec fn spec_file_payload(b: Seq<u8>) -> Seq<char> {
    if vstd::utf8::valid_utf8(b) {
        vstd::utf8::decode_utf8(b)
    } else {
        hex_dump_of(b)
    }
}

/// Turns the bytes of a read file into the text handed back to the model.
pub fn file_payload_to_text(buf: Vec<u8>) -> (r: String)
    ensures
        r@ == spec_file_payload(buf@),
{
    match utf8_to_string(buf) {
        Ok(s) => s,
        Err(b) => hex_dump(&b),
    }
}

/// A path beginning with a slash counts as absolute.
pub open spec fn spec_is_absolute(p: Seq<char>) -> bool {
    p.len() > 0 && p[0] == '/'
}

/// A path with a `..` piece between slashes walks upward.
pub open spec fn spec_has_parent_piece(p: Seq<char>) -> bool {
    exists|k: int| 0 <= k < spec_split(p, '/').len() && spec_split(p, '/')[k] == ".."@
}

/// The guard of the listing tool: an absolute path or one containing a
/// `..` piece is refused with the tool's message; anything else passes
/// the path rules (whether it names a directory is the file system's
/// question).
pub fn check_list_path(relative_path: &str) -> (r: Option<String>)
    ensures
        match r {
            Some(m) => (spec_is_absolute(relative_path@) && m@ == "\""@ + relative_path@
                + "\" is an absolute path"@) || (!spec_is_absolute(relative_path@)
                && spec_has_parent_piece(relative_path@) && m@ == "\""@ + relative_path@
                + "\" contains '..'"@),
            None => !spec_is_absolute(relative_path@) && !spec_has_parent_piece(
                relative_path@,
            ),
        },
{
    let len = relative_path.unicode_len();
    if len > 0 && relative_path.get_char(0) == '/' {
        let mut m = String::from_str("\"");
        m.append(relative_path);
        m.append("\" is an absolute path");
        return Some(m);
    }
    let pieces = split_at_char(relative_path, '/');
    let mut i: usize = 0;
    proof {
        assert(forall|k: int| 0 <= k < pieces@.len()
            ==> pieces.deep_view()[k] == #[trigger] pieces@[k]@);
    }
    while i < pieces.len()
        invariant
            i <= pieces@.len(),
            !spec_is_absolute(relative_path@),
            pieces.deep_view() == spec_split(relative_path@, '/'),
            forall|k: int| 0 <= k < pieces@.len()
                ==> pieces.deep_view()[k] == #[trigger] pieces@[k]@,
            forall|k: int| 0 <= k < i ==> pieces.deep_view()[k] != ".."@,
        decreases pieces@.len() - i,
    {
        if eq_str(pieces[i].as_str(), "..") {
            let mut m = String::from_str("\"");
            m.append(relative_path);
            m.append("\" contains '..'");
            proof {
                assert(spec_split(relative_path@, '/')[i as int] == ".."@);
            }
            return Some(m);
        }
        i = i + 1;
    }
    None
}

/// The message for a checked path that turns out not to name a directory.
pub fn not_directory_message(relative_path: &str) -> (r: String)
    ensures
        r@ == "\""@ + relative_path@ + "\" is not a directory"@,
{
    let mut m = String::from_str("\"");
    m.append(relative_path);
    m.append("\" is not a directory");
    m
}

/// What kind of entry a directory holds.
#[derive(Clone, Copy, Debug, PartialEq, Eq, Structural)]
pub enum EntryKind {
    Directory,
    File,
    Symlink,
    Other,
}

/// One directory entry as the listing shows it: its name, its kind and
/// its byte length.
pub struct DirEntryInfo {
    pub name: String,
    pub kind: EntryKind,
    pub len: u64,
}

/// The kind column of one entry.
pub open spec fn spec_kind_text(k: EntryKind) -> Seq<char> {
    match k {
        EntryKind::Directory => "directory"@,
        EntryKind::File => "file"@,
        EntryKind::Symlink => "symlink"@,
        EntryKind::Other => ""@,
    }
}

/// One listing line: the quoted name, the kind and the length, separated
/// by tabs.
pub open spec fn spec_entry_line(e: DirEntryInfo) -> Seq<char> {
    "\""@ + e.name@ + "\"\t"@ + spec_kind_text(e.kind) + "\t"@ + spec_dec(e.len as nat)
}

fn entry_line(e: &DirEntryInfo) -> (r: String)
    ensures
        r@ == spec_entry_line(*e),
{
    let mut r = String::from_str("\"");
    r.append(e.name.as_str());
    r.append("\"\t");
    match e.kind {
        EntryKind::Directory => r.append("directory"),
        EntryKind::File => r.append("file"),
        EntryKind::Symlink => r.append("symlink"),
        EntryKind::Other => r.append(""),
    }
    r.append("\t");
    let n = u64_to_dec(e.len);
    r.append(n.as_str());
    proof {
        assert(r@ =~= spec_entry_line(*e));
    }
    r
}

/// The whole listing text of one directory.
pub open spec fn spec_listing_text(path: Seq<char>, entries: Seq<DirEntryInfo>) -> Seq<char> {
    "The contents of folder \""@ + path + "\" is:\nname\ttype\tsize\n"@ + spec_join_lines(
        entries.map_values(|e: DirEntryInfo| spec_entry_line(e)),
    )
}

/// Renders the listing of one directory: a header and one line per entry,
/// in the order given.
pub fn render_listing(relative_path: &str, entries: &Vec<DirEntryInfo>) -> (r: String)
    ensures
        r@ == spec_listing_text(relative_path@, entries@),
{
    let mut lines: Vec<String> = Vec::new();
    let mut i: usize = 0;
    let ghost f = |e: DirEntryInfo| spec_entry_line(e);
    while i < entries.len()
        invariant
            i <= entries@.len(),
            lines.deep_view() == entries@.take(i as int).map_values(f),
            f == (|e: DirEntryInfo| spec_entry_line(e)),
        decreases entries@.len() - i,
    {
        let ghost old_dv = lines.deep_view();
        lines.push(entry_line(&entries[i]));
        proof {
            assert(lines.deep_view() =~= old_dv.push(spec_entry_line(entries@[i as int])));
            assert(entries@.take(i + 1) =~= entries@.take(i as int).push(entries@[i as int]));
            assert(entries@.take(i + 1).map_values(f)
                =~= entries@.take(i as int).map_values(f).push(f(entries@[i as int])));
        }
        i = i + 1;
    }
    proof {
        assert(entries@.take(entries@.len() as int) =~= entries@);
    }
    let mut r = String::from_str("The contents of folder \"");
    r.append(relative_path);
    r.append("\" is:\nname\ttype\tsize\n");
    let joined = join_lines(&lines);
    r.append(joined.as_str());
    r
}

} // verus!
