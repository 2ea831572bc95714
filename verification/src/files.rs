//! Directory listings and file previews, built from what a caller read from
//! the disk.

use crate::order::{
    entry_le, in_class, lemma_insert_keeps_order, lemma_ordered_iff_pairwise, listing_ordered,
    pairwise_le,
};
use crate::path::{file_name, path_file_name};
use crate::text::{
    at_most, chars_le, clean_text, decode_lossy, lowercase, push_char, sort_key, strip_nul,
    utf8_lossy,
};
use vstd::prelude::*;
use vstd::string::StringExecFns;

verus! {

/// What the file system says of one node, as plain values.
#[derive(Clone, Copy, Debug)]
pub struct SiuMeta {
    /// The node is a regular file.
    pub is_file: bool,
    /// The node is a directory.
    pub is_dir: bool,
    /// Its size in bytes.
    pub size: u64,
    /// Its permission bits.
    pub mode: u32,
    /// When it was last modified, in seconds since the Unix epoch, where the
    /// file system knows.
    pub modified: Option<i64>,
}

/// One entry of a directory.
#[derive(Debug)]
pub struct SiuFileInfo {
    pub name: String,
    pub path: String,
    pub meta: Option<SiuMeta>,
    pub is_file: bool,
}

/// An entry as a mathematical value.
pub struct SiuFileInfoView {
    pub name: Seq<char>,
    pub path: Seq<char>,
    pub meta: Option<SiuMeta>,
    pub is_file: bool,
}

impl View for SiuFileInfo {
    type V = SiuFileInfoView;

    open spec fn view(&self) -> SiuFileInfoView {
        SiuFileInfoView {
            name: self.name@,
            path: self.path@,
            meta: self.meta,
            is_file: self.is_file,
        }
    }
}

/// The name shown for a path, where the path has a last component.
pub open spec fn name_of(path: Seq<char>) -> Seq<char> {
    match path_file_name(path) {
        Some(n) => n,
        None => "NO DATA"@,
    }
}

/// The entry that stands for the node at `path` with metadata `meta`.
pub open spec fn info_of(path: Seq<char>, meta: SiuMeta) -> SiuFileInfoView {
    SiuFileInfoView { name: name_of(path), path, meta: Some(meta), is_file: meta.is_file }
}

impl SiuFileInfo {
    /// The entry for the node at `path`: it is named by the last component
    /// of the path, or `NO DATA` where the path has none, and it is a file
    /// where the metadata says so.
    pub fn new(path: String, meta: SiuMeta) -> (info: Self)
        ensures
            info@ == info_of(path@, meta),
    {
        let name = match file_name(path.as_str()) {
            Some(n) => n,
            None => "NO DATA".to_owned(),
        };
        SiuFileInfo { name, path, meta: Some(meta), is_file: meta.is_file }
    }
}

/// The number of bytes of a file that a preview looks at, and the number of
/// characters that it shows at most.
pub const PREVIEW_LIMIT: usize = 2000;

/// What a pane shows: the entries of a directory in listing order, or the
/// beginning of a file as text.
#[derive(Debug)]
pub struct SiuDir {
    pub dirs: Vec<SiuFileInfo>,
    pub path: String,
    pub content: Option<String>,
}

/// A listing as a mathematical value.
pub struct SiuDirView {
    pub dirs: Seq<SiuFileInfoView>,
    pub path: Seq<char>,
    pub content: Option<Seq<char>>,
}

/// The entries of a vector as mathematical values.
pub open spec fn views(s: Seq<SiuFileInfo>) -> Seq<SiuFileInfoView> {
    s.map_values(|e: SiuFileInfo| e@)
}

/// An optional text as a mathematical value.
pub open spec fn text_of(t: Option<String>) -> Option<Seq<char>> {
    match t {
        Some(s) => Some(s@),
        None => None,
    }
}

impl View for SiuDir {
    type V = SiuDirView;

    open spec fn view(&self) -> SiuDirView {
        SiuDirView { dirs: views(self.dirs@), path: self.path@, content: text_of(self.content) }
    }
}

impl SiuDirView {
    /// A listing is well formed where its entries are in listing order and
    /// can be counted by the machine and where,
    /// if it is a preview, it has no entries and its text is free of NUL
    /// characters and no longer than a preview may be.
    pub open spec fn wf(self) -> bool {
        &&& listing_ordered(self.dirs)
        &&& self.dirs.len() <= usize::MAX
        &&& self.content matches Some(t) ==> {
            &&& self.dirs.len() == 0
            &&& t.len() <= PREVIEW_LIMIT
            &&& !t.contains('\0')
        }
    }

    /// Whether this is the preview of a file.
    pub open spec fn is_preview(self) -> bool {
        self.content is Some
    }
}

/// The entries that a directory scan yields: one for each node that is a
/// file or a directory, in the order in which the nodes were read. Nodes of
/// any other kind are left out.
pub open spec fn scanned(entries: Seq<(String, SiuMeta)>) -> Seq<SiuFileInfoView>
    decreases entries.len(),
{
    if entries.len() == 0 {
        Seq::empty()
    } else {
        let e = entries.last();
        let rest = scanned(entries.drop_last());
        if e.1.is_file || e.1.is_dir {
            rest.push(info_of(e.0@, e.1))
        } else {
            rest
        }
    }
}

/// The text of a preview of a file that begins with `bytes`: the first
/// `PREVIEW_LIMIT` bytes decoded, without NUL characters.
pub open spec fn preview_text(bytes: Seq<u8>) -> Seq<char> {
    let head = if bytes.len() <= PREVIEW_LIMIT {
        bytes
    } else {
        bytes.subrange(0, PREVIEW_LIMIT as int)
    };
    at_most(strip_nul(utf8_lossy(head)), PREVIEW_LIMIT as nat)
}

/// The text of a preview is never longer than `PREVIEW_LIMIT` characters,
/// whatever the file holds, and has no NUL character in it.
pub proof fn lemma_preview_text_bounded(bytes: Seq<u8>)
    ensures
        preview_text(bytes).len() <= PREVIEW_LIMIT,
        !preview_text(bytes).contains('\0'),
{
    let head = if bytes.len() <= PREVIEW_LIMIT {
        bytes
    } else {
        bytes.subrange(0, PREVIEW_LIMIT as int)
    };
    let kept = strip_nul(utf8_lossy(head));
    let text = preview_text(bytes);
    assert forall|i: int| 0 <= i < text.len() implies text[i] != '\0' by {
        assert(text[i] == kept[i]);
        utf8_lossy(head).lemma_filter_pred(|c: char| c != '\0', i);
    }
}

/// The names of the entries, one to a line.
pub open spec fn printed(entries: Seq<SiuFileInfoView>) -> Seq<char>
    decreases entries.len(),
{
    if entries.len() == 0 {
        Seq::empty()
    } else {
        printed(entries.drop_last()) + entries.last().name + seq!['\n']
    }
}

/// Whether `a`, whose sort key is `a_key`, may stand before `b`.
fn info_le(a: &SiuFileInfo, a_key: &Vec<char>, b: &SiuFileInfo, b_key: &Vec<char>) -> (r: bool)
    requires
        a_key@ == lowercase(a@.name),
        b_key@ == lowercase(b@.name),
    ensures
        r == entry_le(a@, b@),
{
    if a.is_file == b.is_file {
        chars_le(a_key, b_key)
    } else {
        !a.is_file
    }
}

impl SiuDir {
    /// Well-formedness of the listing, see [`SiuDirView::wf`].
    pub open spec fn wf(&self) -> bool {
        self@.wf()
    }

    /// The listing of the directory at `path`, from the nodes that were read
    /// in it.
    ///
    /// Every node that is a file or a directory gets an entry. The entries
    /// stand in listing order. Entries of one kind whose names differ at most
    /// in case keep the order in which they were read, so the listing holds
    /// exactly the scanned entries and is determined by them, see
    /// [`crate::order::lemma_order_determines`].
    pub fn new(path: String, entries: Vec<(String, SiuMeta)>) -> (d: Self)
        ensures
            d@.path == path@,
            d@.content is None,
            d.wf(),
            listing_ordered(d@.dirs),
            d@.dirs.len() == scanned(entries@).len(),
            forall|is_file: bool, key: Seq<char>|
                d@.dirs.filter(#[trigger] in_class(is_file, key)) == scanned(entries@).filter(
                    in_class(is_file, key),
                ),
    {
        let mut dirs: Vec<SiuFileInfo> = Vec::new();
        let mut keys: Vec<Vec<char>> = Vec::new();
        let mut i: usize = 0;
        proof {
            assert(entries@.take(0) =~= Seq::empty());
            assert forall|is_file: bool, key: Seq<char>|
                views(dirs@).filter(#[trigger] in_class(is_file, key)) == scanned(
                    entries@.take(0),
                ).filter(in_class(is_file, key)) by {
                reveal(Seq::filter);
                assert(views(dirs@) =~= Seq::empty());
            }
        }
        while i < entries.len()
            invariant
                i <= entries.len(),
                keys.len() == dirs.len(),
                forall|j: int| 0 <= j < dirs.len() ==> (#[trigger] keys[j])@ == lowercase(dirs[j]@.name),
                pairwise_le(views(dirs@)),
                dirs.len() == scanned(entries@.take(i as int)).len(),
                forall|is_file: bool, key: Seq<char>|
                    views(dirs@).filter(#[trigger] in_class(is_file, key)) == scanned(
                        entries@.take(i as int),
                    ).filter(in_class(is_file, key)),
            decreases entries.len() - i,
        {
            let ghost before = entries@.take(i as int);
            let ghost after = entries@.take(i + 1);
            assert(after.drop_last() =~= before);
            assert(after.last() == entries@[i as int]);
            let meta = entries[i].1;
            if meta.is_file || meta.is_dir {
                let info = SiuFileInfo::new(entries[i].0.clone(), meta);
                let key = sort_key(info.name.as_str());
                let mut p: usize = dirs.len();
                while p > 0 && !info_le(&dirs[p - 1], &keys[p - 1], &info, &key)
                    invariant
                        p <= dirs.len(),
                        keys.len() == dirs.len(),
                        key@ == lowercase(info@.name),
                        forall|j: int|
                            0 <= j < dirs.len() ==> (#[trigger] keys[j])@ == lowercase(
                                dirs[j]@.name,
                            ),
                        forall|j: int|
                            p <= j < dirs.len() ==> !entry_le(#[trigger] views(dirs@)[j], info@),
                    decreases p,
                {
                    p -= 1;
                }
                let ghost old_views = views(dirs@);
                proof {
                    lemma_insert_keeps_order(old_views, p as int, info@);
                    assert forall|is_file: bool, key: Seq<char>|
                        old_views.insert(p as int, info@).filter(
                            #[trigger] in_class(is_file, key),
                        ) == scanned(after).filter(in_class(is_file, key)) by {
                        Seq::lemma_filter_push(scanned(before), info@, in_class(is_file, key));
                    }
                }
                dirs.insert(p, info);
                keys.insert(p, key);
                assert(views(dirs@) =~= old_views.insert(p as int, info@));
            }
            i += 1;
        }
        proof {
            assert(entries@.take(entries.len() as int) =~= entries@);
            lemma_ordered_iff_pairwise(views(dirs@));
        }
        SiuDir { dirs, path, content: None }
    }

    /// The listing as text to print: the name of each entry, in listing
    /// order, each followed by a line break.
    pub fn print(&self) -> (out: String)
        ensures
            out@ == printed(self@.dirs),
    {
        let mut out = String::new();
        let mut i: usize = 0;
        assert(views(self.dirs@).take(0) =~= Seq::empty());
        while i < self.dirs.len()
            invariant
                i <= self.dirs.len(),
                out@ == printed(views(self.dirs@).take(i as int)),
            decreases self.dirs.len() - i,
        {
            let ghost before = views(self.dirs@).take(i as int);
            let ghost now = views(self.dirs@).take(i + 1);
            assert(now.drop_last() =~= before);
            assert(now.last() == self.dirs[i as int]@);
            out.append(self.dirs[i].name.as_str());
            push_char(&mut out, '\n');
            assert(out@ =~= printed(now));
            i += 1;
        }
        assert(views(self.dirs@).take(self.dirs.len() as int) =~= views(self.dirs@));
        out
    }

    /// Turns this listing into the preview of the file at `path` that begins
    /// with `bytes`.
    ///
    /// Of the bytes the first `PREVIEW_LIMIT` count. They are decoded as
    /// UTF-8, with U+FFFD for what is not valid, and the NUL characters are
    /// taken out. The entries are dropped.
    pub fn read_dir(&mut self, path: String, bytes: Vec<u8>)
        ensures
            final(self)@.path == path@,
            final(self)@.dirs.len() == 0,
            final(self)@.content == Some(preview_text(bytes@)),
            final(self)@.content->0.len() <= PREVIEW_LIMIT,
            !final(self)@.content->0.contains('\0'),
            final(self).wf(),
    {
        let mut head = bytes;
        head.truncate(PREVIEW_LIMIT);
        assert(bytes@.len() <= PREVIEW_LIMIT ==> head@ =~= bytes@);
        let decoded = decode_lossy(&head);
        let text = clean_text(decoded.as_str(), PREVIEW_LIMIT);
        self.content = Some(text);
        self.dirs.clear();
        self.path = path;
        assert(views(self.dirs@) =~= Seq::empty());
    }
}

/// The character for one permission: `c` where `mode` has the bit `bit`,
/// a dash where it has not.
pub open spec fn flag(mode: u32, bit: u32, c: char) -> char {
    if mode & bit != 0 {
        c
    } else {
        '-'
    }
}

/// The ten characters that describe a node's kind and permissions, as a
/// long directory listing shows them: `d` or a dash, then read, write and
/// execute for the owner, the group and everyone else.
pub open spec fn permission_text(mode: u32, is_directory: bool) -> Seq<char> {
    seq![
        if is_directory { 'd' } else { '-' },
        flag(mode, 0o400, 'r'),
        flag(mode, 0o200, 'w'),
        flag(mode, 0o100, 'x'),
        flag(mode, 0o040, 'r'),
        flag(mode, 0o020, 'w'),
        flag(mode, 0o010, 'x'),
        flag(mode, 0o004, 'r'),
        flag(mode, 0o002, 'w'),
        flag(mode, 0o001, 'x'),
    ]
}

/// Appends the character for one permission to `s`.
fn push_flag(s: &mut String, mode: u32, bit: u32, c: char)
    ensures
        final(s)@ == old(s)@.push(flag(mode, bit, c)),
{
    if mode & bit != 0 {
        push_char(s, c);
    } else {
        push_char(s, '-');
    }
}

/// The permissions `mode` of a node as ten characters, such as
/// `drwxr-xr-x` for a directory with mode 755.
pub fn format_permissions(mode: u32, is_directory: bool) -> (text: String)
    ensures
        text@ == permission_text(mode, is_directory),
{
    let mut text = String::new();
    push_char(&mut text, if is_directory { 'd' } else { '-' });
    push_flag(&mut text, mode, 0o400, 'r');
    push_flag(&mut text, mode, 0o200, 'w');
    push_flag(&mut text, mode, 0o100, 'x');
    push_flag(&mut text, mode, 0o040, 'r');
    push_flag(&mut text, mode, 0o020, 'w');
    push_flag(&mut text, mode, 0o010, 'x');
    push_flag(&mut text, mode, 0o004, 'r');
    push_flag(&mut text, mode, 0o002, 'w');
    push_flag(&mut text, mode, 0o001, 'x');
    assert(text@ =~= permission_text(mode, is_directory));
    text
}

/// The date and time of day at `secs` seconds after the Unix epoch in a zone
/// that is `utc_offset` seconds east of UTC, written as chrono writes it
/// under the format `%Y-%m-%d %H:%M:%S`; `None` where chrono cannot
/// represent the instant or the offset.
pub uninterp spec fn stamp_text(secs: i64, utc_offset: i32) -> Option<Seq<char>>;

/// chrono's `DateTime::format` with `%Y-%m-%d %H:%M:%S`, on the instant
/// `secs` seen from the fixed offset `utc_offset`. `DateTime::from_timestamp`
/// and `FixedOffset::east_opt` make the value and refuse what is out of
/// their range. The text is a function of the two numbers alone.
#[verifier::external_body]
fn stamp(secs: i64, utc_offset: i32) -> (text: Option<String>)
    ensures
        text_of(text) == stamp_text(secs, utc_offset),
{
    let utc = chrono::DateTime::from_timestamp(secs, 0)?;
    let zone = chrono::FixedOffset::east_opt(utc_offset)?;
    Some(utc.with_timezone(&zone).format("%Y-%m-%d %H:%M:%S").to_string())
}

/// What stands in place of a time that is not known.
pub open spec fn no_time() -> Seq<char> {
    "N/A"@
}

/// The label for a time of modification: the written time where there is
/// one, `N/A` where there is none.
pub fn modified_label(written: Option<String>) -> (label: String)
    ensures
        label@ == match written {
            Some(t) => t@,
            None => no_time(),
        },
{
    match written {
        Some(t) => t,
        None => "N/A".to_owned(),
    }
}

/// When a node was last modified, for display in the zone `utc_offset`
/// seconds east of UTC: `N/A` where the time is not known or cannot be
/// written, else the date and the time of day.
pub fn format_modified(modified: Option<i64>, utc_offset: i32) -> (label: String)
    ensures
        label@ == match modified {
            Some(secs) => match stamp_text(secs, utc_offset) {
                Some(t) => t,
                None => no_time(),
            },
            None => no_time(),
        },
{
    match modified {
        Some(secs) => modified_label(stamp(secs, utc_offset)),
        None => modified_label(None),
    }
}

} // verus!
