//! Where the firmware keeps its files on the card, how recordings are
//! named, and how a directory listing is ordered for display. Paths are
//! text; reading and creating files is left to the caller.

use vstd::prelude::*;

use crate::client::without_trailing_slashes;
use crate::menu::state::{recordings_view, RecordingItem, RecordingView};
use crate::text::{decimal, push_decimal, push_str, str_eq, substring};

verus! {

/// Directory of the firmware's files under the storage root.
pub const APP_DIR: &'static str = "channel9";

/// Name of the configuration file.
pub const CONFIG_FILE: &'static str = "config.json";

/// Directory of the voice notes under the firmware's directory.
pub const RECORDINGS_DIR: &'static str = "recordings";

/// Most recordings the recordings directory names.
pub const MAX_RECORDINGS: u32 = 999;

/// Why a file operation failed.
#[derive(Debug, Clone, PartialEq, Eq)]
pub enum FsError {
    /// The path has no parent directory to create.
    NoParent { path: String },
    /// Every recording name is taken.
    RecordingsFull,
}

pub enum FsErrorView {
    NoParent { path: Seq<char> },
    RecordingsFull,
}

impl View for FsError {
    type V = FsErrorView;

    open spec fn view(&self) -> FsErrorView {
        match self {
            FsError::NoParent { path } => FsErrorView::NoParent { path: path@ },
            FsError::RecordingsFull => FsErrorView::RecordingsFull,
        }
    }
}

pub open spec fn fs_error_text(e: FsErrorView) -> Seq<char> {
    match e {
        FsErrorView::NoParent { path } => "path does not have a parent directory "@ + path,
        FsErrorView::RecordingsFull => "recording directory is full"@,
    }
}

impl FsError {
    /// The text this error reports.
    pub fn message(&self) -> (r: String)
        ensures
            r@ == fs_error_text(self@),
    {
        match self {
            FsError::NoParent { path } => {
                let mut r = "path does not have a parent directory ".to_owned();
                push_str(&mut r, path.as_str());
                r
            },
            FsError::RecordingsFull => "recording directory is full".to_owned(),
        }
    }
}

/// `name` under `base`, with a '/' between them unless `base` is empty or
/// already ends with one (`PathBuf::join` of a relative name).
pub open spec fn join_path(base: Seq<char>, name: Seq<char>) -> Seq<char> {
    if base.len() == 0 || base.last() == '/' {
        base + name
    } else {
        base + "/"@ + name
    }
}

pub fn join(base: &str, name: &str) -> (r: String)
    ensures
        r@ == join_path(base@, name@),
{
    let mut path = base.to_owned();
    let n = base.unicode_len();
    if n > 0 && base.get_char(n - 1) != '/' {
        push_str(&mut path, "/");
    }
    push_str(&mut path, name);
    path
}

/// The firmware's directory under the storage root.
pub open spec fn app_dir_of(root: Seq<char>) -> Seq<char> {
    join_path(root, "channel9"@)
}

pub fn app_dir(root: &str) -> (r: String)
    ensures
        r@ == app_dir_of(root@),
{
    join(root, APP_DIR)
}

/// The configuration file under the storage root.
pub open spec fn config_path_of(root: Seq<char>) -> Seq<char> {
    join_path(app_dir_of(root), "config.json"@)
}

pub fn config_path(root: &str) -> (r: String)
    ensures
        r@ == config_path_of(root@),
{
    let dir = app_dir(root);
    join(dir.as_str(), CONFIG_FILE)
}

/// The recordings directory under the storage root.
pub open spec fn recordings_dir_of(root: Seq<char>) -> Seq<char> {
    join_path(app_dir_of(root), "recordings"@)
}

pub fn recordings_dir(root: &str) -> (r: String)
    ensures
        r@ == recordings_dir_of(root@),
{
    let dir = app_dir(root);
    join(dir.as_str(), RECORDINGS_DIR)
}

/// Index of the last '/' before `j`, or -1.
pub open spec fn last_slash_before(s: Seq<char>, j: int) -> int
    decreases j,
{
    if j <= 0 {
        -1
    } else if s[j - 1] == '/' {
        j - 1
    } else {
        last_slash_before(s, j - 1)
    }
}

proof fn lemma_last_slash_bounds(s: Seq<char>, j: int)
    requires
        0 <= j <= s.len(),
    ensures
        -1 <= last_slash_before(s, j) < j,
        last_slash_before(s, j) >= 0 ==> s[last_slash_before(s, j)] == '/',
    decreases j,
{
    if j > 0 && s[j - 1] != '/' {
        lemma_last_slash_bounds(s, j - 1);
    }
}

/// The directory holding `path`: the text before its last name, without
/// trailing '/', or "/" for a name at the root, or "" for a bare name;
/// `None` for an empty path or the root itself. Names "." and ".." are
/// taken as ordinary names.
pub open spec fn parent_of(path: Seq<char>) -> Option<Seq<char>> {
    let trimmed = without_trailing_slashes(path);
    if trimmed.len() == 0 {
        None
    } else {
        let i = last_slash_before(trimmed, trimmed.len() as int);
        if i < 0 {
            Some(Seq::empty())
        } else {
            let head = without_trailing_slashes(trimmed.take(i));
            if head.len() == 0 {
                Some("/"@)
            } else {
                Some(head)
            }
        }
    }
}

fn drop_trailing_slashes(s: &str) -> (r: String)
    ensures
        r@ == without_trailing_slashes(s@),
{
    let n = s.unicode_len();
    let mut j = n;
    assert(s@.take(n as int) =~= s@);
    while j > 0 && s.get_char(j - 1) == '/'
        invariant
            n == s@.len(),
            j <= n,
            without_trailing_slashes(s@) == without_trailing_slashes(s@.take(j as int)),
        decreases j,
    {
        assert(s@.take(j as int).drop_last() =~= s@.take(j - 1));
        j -= 1;
    }
    assert(s@.take(j as int) =~= s@.subrange(0, j as int));
    substring(s, 0, j)
}

/// The directory that must exist before `path` can be created: its parent
/// (`Path::parent`), or the error when it has none.
pub fn ensure_parent(path: &str) -> (r: Result<String, FsError>)
    ensures
        match r {
            Ok(dir) => parent_of(path@) == Some(dir@),
            Err(e) => parent_of(path@) is None && e@ == (FsErrorView::NoParent { path: path@ }),
        },
{
    let trimmed = drop_trailing_slashes(path);
    let n = trimmed.as_str().unicode_len();
    if n == 0 {
        return Err(FsError::NoParent { path: path.to_owned() });
    }
    let mut j = n;
    while j > 0 && trimmed.as_str().get_char(j - 1) != '/'
        invariant
            n == trimmed@.len(),
            j <= n,
            last_slash_before(trimmed@, n as int) == last_slash_before(trimmed@, j as int),
        decreases j,
    {
        j -= 1;
    }
    proof {
        lemma_last_slash_bounds(trimmed@, n as int);
    }
    if j == 0 {
        return Ok(String::new());
    }
    let before = substring(trimmed.as_str(), 0, j - 1);
    assert(before@ =~= trimmed@.take(j - 1));
    let head = drop_trailing_slashes(before.as_str());
    if head.as_str().unicode_len() == 0 {
        Ok("/".to_owned())
    } else {
        Ok(head)
    }
}

/// `n` in at least three digits, zero-padded (`{:03}`).
pub open spec fn decimal3(n: nat) -> Seq<char> {
    if n < 10 {
        "00"@ + decimal(n)
    } else if n < 100 {
        "0"@ + decimal(n)
    } else {
        decimal(n)
    }
}

/// The file name of recording number `index`: "rec_001.wav" and on.
pub open spec fn recording_name(index: nat) -> Seq<char> {
    "rec_"@ + decimal3(index) + ".wav"@
}

pub fn recording_file_name(index: u32) -> (r: String)
    ensures
        r@ == recording_name(index as nat),
{
    let mut name = "rec_".to_owned();
    if index < 10 {
        push_str(&mut name, "00");
    } else if index < 100 {
        push_str(&mut name, "0");
    }
    push_decimal(&mut name, index as u64);
    push_str(&mut name, ".wav");
    proof {
        reveal_strlit("rec_");
        reveal_strlit("00");
        reveal_strlit("0");
        reveal_strlit(".wav");
        if index < 10 {
            assert("rec_"@ + "00"@ + decimal(index as nat) + ".wav"@ =~= recording_name(
                index as nat,
            ));
        } else if index < 100 {
            assert("rec_"@ + "0"@ + decimal(index as nat) + ".wav"@ =~= recording_name(
                index as nat,
            ));
        } else {
            assert("rec_"@ + decimal(index as nat) + ".wav"@ =~= recording_name(index as nat));
        }
    }
    name
}

/// The first recording number from `k` up to 999 whose name is not taken.
pub open spec fn first_free_from(taken: Seq<Seq<char>>, k: int) -> Option<int>
    decreases 1000 - k,
{
    if k < 1 || k > 999 {
        None
    } else if taken.contains(recording_name(k as nat)) {
        first_free_from(taken, k + 1)
    } else {
        Some(k)
    }
}

fn name_taken(taken: &Vec<String>, name: &String) -> (r: bool)
    ensures
        r == taken@.map_values(|s: String| s@).contains(name@),
{
    let ghost tv = taken@.map_values(|s: String| s@);
    let mut i: usize = 0;
    while i < taken.len()
        invariant
            tv == taken@.map_values(|s: String| s@),
            i <= taken.len(),
            forall|k: int| 0 <= k < i ==> tv[k] != name@,
        decreases taken.len() - i,
    {
        if str_eq(taken[i].as_str(), name.as_str()) {
            assert(tv[i as int] == name@);
            return true;
        }
        i += 1;
    }
    false
}

/// Where the next recording goes under the storage root, given the names
/// already in the recordings directory: the first free name from
/// "rec_001.wav" to "rec_999.wav".
pub fn next_recording_path(root: &str, taken: &Vec<String>) -> (r: Result<String, FsError>)
    ensures
        match r {
            Ok(path) => first_free_from(taken@.map_values(|s: String| s@), 1) matches Some(k)
                && path@ == join_path(recordings_dir_of(root@), recording_name(k as nat)),
            Err(e) => first_free_from(taken@.map_values(|s: String| s@), 1) is None
                && e@ == FsErrorView::RecordingsFull,
        },
{
    let ghost tv = taken@.map_values(|s: String| s@);
    let dir = recordings_dir(root);
    let mut index: u32 = 1;
    while index <= MAX_RECORDINGS
        invariant
            tv == taken@.map_values(|s: String| s@),
            1 <= index <= 1000,
            first_free_from(tv, 1) == first_free_from(tv, index as int),
            dir@ == recordings_dir_of(root@),
        decreases 1000 - index,
    {
        let name = recording_file_name(index);
        if !name_taken(taken, &name) {
            return Ok(join(dir.as_str(), name.as_str()));
        }
        index += 1;
    }
    Err(FsError::RecordingsFull)
}

/// Is `a` before `b` in character order (`str::cmp`).
pub open spec fn chars_less(a: Seq<char>, b: Seq<char>) -> bool
    decreases a.len(),
{
    if a.len() == 0 {
        b.len() > 0
    } else if b.len() == 0 {
        false
    } else if a[0] != b[0] {
        (a[0] as int) < (b[0] as int)
    } else {
        chars_less(a.skip(1), b.skip(1))
    }
}

/// Character-order comparison of two names.
pub fn str_less(a: &str, b: &str) -> (r: bool)
    ensures
        r == chars_less(a@, b@),
{
    let n = a.unicode_len();
    let m = b.unicode_len();
    let mut i: usize = 0;
    assert(a@.skip(0) =~= a@);
    assert(b@.skip(0) =~= b@);
    while i < n && i < m && a.get_char(i) == b.get_char(i)
        invariant
            n == a@.len(),
            m == b@.len(),
            i <= n,
            i <= m,
            chars_less(a@, b@) == chars_less(a@.skip(i as int), b@.skip(i as int)),
        decreases n - i,
    {
        assert(a@.skip(i as int).skip(1) =~= a@.skip(i + 1));
        assert(b@.skip(i as int).skip(1) =~= b@.skip(i + 1));
        i += 1;
    }
    if i == n {
        i < m
    } else if i == m {
        false
    } else {
        (a.get_char(i) as u32) < (b.get_char(i) as u32)
    }
}

/// An entry of a directory listing; `operation` marks the "> Back" row.
#[derive(Debug, Clone, PartialEq, Eq)]
pub struct FileEntry {
    pub name: String,
    pub is_dir: bool,
    pub operation: bool,
    pub size_bytes: u64,
}

pub struct EntryView {
    pub name: Seq<char>,
    pub is_dir: bool,
    pub operation: bool,
    pub size_bytes: u64,
}

impl View for FileEntry {
    type V = EntryView;

    open spec fn view(&self) -> EntryView {
        EntryView {
            name: self.name@,
            is_dir: self.is_dir,
            operation: self.operation,
            size_bytes: self.size_bytes,
        }
    }
}

pub open spec fn entries_view(v: Seq<FileEntry>) -> Seq<EntryView> {
    v.map_values(|e: FileEntry| e@)
}

/// Does `a` come strictly before `b` in a listing: directories first, then
/// by name.
pub open spec fn entry_before(a: EntryView, b: EntryView) -> bool {
    (a.is_dir && !b.is_dir) || (a.is_dir == b.is_dir && chars_less(a.name, b.name))
}

/// `e` inserted into the ordered `s` after every entry not after it.
pub open spec fn insert_entry(s: Seq<EntryView>, e: EntryView) -> Seq<EntryView>
    decreases s.len(),
{
    if s.len() == 0 {
        seq![e]
    } else if entry_before(e, s.last()) {
        insert_entry(s.drop_last(), e).push(s.last())
    } else {
        s.push(e)
    }
}

/// `s` in listing order, entries that tie keeping their order (a stable
/// sort).
pub open spec fn sort_entries(s: Seq<EntryView>) -> Seq<EntryView>
    decreases s.len(),
{
    if s.len() == 0 {
        Seq::empty()
    } else {
        insert_entry(sort_entries(s.drop_last()), s.last())
    }
}

proof fn lemma_insert_entry_at(s: Seq<EntryView>, e: EntryView, pos: int)
    requires
        0 <= pos <= s.len(),
        forall|k: int| pos <= k < s.len() ==> entry_before(e, #[trigger] s[k]),
        pos == 0 || !entry_before(e, s[pos - 1]),
    ensures
        insert_entry(s, e) == s.take(pos).push(e) + s.skip(pos),
    decreases s.len(),
{
    if s.len() == 0 {
        assert(s.take(pos).push(e) + s.skip(pos) =~= seq![e]);
    } else if pos == s.len() {
        assert(!entry_before(e, s.last()));
        assert(s.take(pos).push(e) + s.skip(pos) =~= s.push(e));
    } else {
        assert(entry_before(e, s[s.len() - 1]));
        let d = s.drop_last();
        assert forall|k: int| pos <= k < d.len() implies entry_before(e, #[trigger] d[k]) by {
            assert(d[k] == s[k]);
        }
        if pos > 0 {
            assert(d[pos - 1] == s[pos - 1]);
        }
        lemma_insert_entry_at(d, e, pos);
        assert(d.take(pos).push(e) + d.skip(pos) + seq![s.last()] =~= s.take(pos).push(e) + s.skip(
            pos,
        ));
        assert(insert_entry(d, e).push(s.last()) =~= d.take(pos).push(e) + d.skip(pos) + seq![
            s.last(),
        ]);
    }
}

fn entry_is_before(a: &FileEntry, b: &FileEntry) -> (r: bool)
    ensures
        r == entry_before(a@, b@),
{
    (a.is_dir && !b.is_dir) || (a.is_dir == b.is_dir && str_less(a.name.as_str(), b.name.as_str()))
}

fn insert_sorted(out: &mut Vec<FileEntry>, e: FileEntry)
    ensures
        entries_view(final(out)@) == insert_entry(entries_view(old(out)@), e@),
{
    let ghost sv = entries_view(out@);
    let mut pos = out.len();
    while pos > 0 && entry_is_before(&e, &out[pos - 1])
        invariant
            sv == entries_view(out@),
            pos <= out.len(),
            forall|k: int| pos <= k < sv.len() ==> entry_before(e@, #[trigger] sv[k]),
        decreases pos,
    {
        assert(sv[pos - 1] == out@[pos - 1]@);
        pos -= 1;
    }
    proof {
        if pos > 0 {
            assert(sv[pos - 1] == out@[pos - 1]@);
        }
        lemma_insert_entry_at(sv, e@, pos as int);
    }
    let ghost ev = e@;
    out.insert(pos, e);
    assert(entries_view(out@) =~= sv.take(pos as int).push(ev) + sv.skip(pos as int));
}

/// Number of entries a listing reads: up to `limit`, and at least the first
/// entry when there is one.
pub open spec fn listed_count(total: nat, limit: usize) -> nat {
    let cap: nat = if limit == 0 {
        1
    } else {
        limit as nat
    };
    if total < cap {
        total
    } else {
        cap
    }
}

/// The row that leaves the listing.
pub open spec fn back_entry() -> EntryView {
    EntryView { name: "> Back"@, is_dir: false, operation: true, size_bytes: 0 }
}

/// A listing for display from the entries of a directory in the order they
/// were read: the first entries up to `limit` (at least one), directories
/// first and then by name, and the "> Back" row last.
pub fn list_directory(entries: &Vec<FileEntry>, limit: usize) -> (r: Vec<FileEntry>)
    ensures
        entries_view(r@) == sort_entries(
            entries_view(entries@).take(listed_count(entries@.len(), limit) as int),
        ).push(back_entry()),
{
    let count = if limit == 0 {
        if entries.len() < 1 {
            entries.len()
        } else {
            1
        }
    } else if entries.len() < limit {
        entries.len()
    } else {
        limit
    };
    let ghost all = entries_view(entries@);
    let mut out: Vec<FileEntry> = Vec::new();
    let mut i: usize = 0;
    while i < count
        invariant
            all == entries_view(entries@),
            count <= entries.len(),
            i <= count,
            entries_view(out@) == sort_entries(all.take(i as int)),
        decreases count - i,
    {
        let e = FileEntry {
            name: entries[i].name.clone(),
            is_dir: entries[i].is_dir,
            operation: entries[i].operation,
            size_bytes: entries[i].size_bytes,
        };
        assert(e@ == all[i as int]);
        assert(all.take(i + 1).drop_last() =~= all.take(i as int));
        insert_sorted(&mut out, e);
        i += 1;
    }
    let ghost sorted = entries_view(out@);
    out.push(FileEntry { name: "> Back".to_owned(), is_dir: false, operation: true, size_bytes: 0 });
    assert(entries_view(out@) =~= sorted.push(back_entry()));
    out
}

/// Index of the last '.' before `j`, or -1.
pub open spec fn last_dot_before(s: Seq<char>, j: int) -> int
    decreases j,
{
    if j <= 0 {
        -1
    } else if s[j - 1] == '.' {
        j - 1
    } else {
        last_dot_before(s, j - 1)
    }
}

proof fn lemma_last_dot_bounds(s: Seq<char>, j: int)
    requires
        0 <= j <= s.len(),
    ensures
        -1 <= last_dot_before(s, j) < j,
    decreases j,
{
    if j > 0 && s[j - 1] != '.' {
        lemma_last_dot_bounds(s, j - 1);
    }
}

/// Is "wav" the extension of a file name: the text after its last '.',
/// with something before that dot (`Path::extension`).
pub open spec fn has_wav_extension(name: Seq<char>) -> bool {
    let i = last_dot_before(name, name.len() as int);
    i > 0 && name.skip(i + 1) == "wav"@
}

pub fn is_wav_file(name: &str) -> (r: bool)
    ensures
        r == has_wav_extension(name@),
{
    let n = name.unicode_len();
    let mut j = n;
    while j > 0 && name.get_char(j - 1) != '.'
        invariant
            n == name@.len(),
            j <= n,
            last_dot_before(name@, n as int) == last_dot_before(name@, j as int),
        decreases j,
    {
        j -= 1;
    }
    proof {
        lemma_last_dot_bounds(name@, n as int);
    }
    if j <= 1 {
        return false;
    }
    let ext = substring(name, j, n);
    assert(ext@ =~= name@.skip(j as int));
    str_eq(ext.as_str(), "wav")
}

/// The `.wav` recordings among `items`, in their order.
pub open spec fn wav_only(items: Seq<RecordingView>) -> Seq<RecordingView>
    decreases items.len(),
{
    if items.len() == 0 {
        Seq::empty()
    } else if has_wav_extension(items.last().name) {
        wav_only(items.drop_last()).push(items.last())
    } else {
        wav_only(items.drop_last())
    }
}

/// `e` inserted into `s`, ordered by name from last to first, after every
/// recording not after it.
pub open spec fn insert_recording(s: Seq<RecordingView>, e: RecordingView) -> Seq<RecordingView>
    decreases s.len(),
{
    if s.len() == 0 {
        seq![e]
    } else if chars_less(s.last().name, e.name) {
        insert_recording(s.drop_last(), e).push(s.last())
    } else {
        s.push(e)
    }
}

/// `s` ordered by name from last to first, ties keeping their order.
pub open spec fn sort_recordings(s: Seq<RecordingView>) -> Seq<RecordingView>
    decreases s.len(),
{
    if s.len() == 0 {
        Seq::empty()
    } else {
        insert_recording(sort_recordings(s.drop_last()), s.last())
    }
}

proof fn lemma_insert_recording_at(s: Seq<RecordingView>, e: RecordingView, pos: int)
    requires
        0 <= pos <= s.len(),
        forall|k: int| pos <= k < s.len() ==> chars_less(#[trigger] s[k].name, e.name),
        pos == 0 || !chars_less(s[pos - 1].name, e.name),
    ensures
        insert_recording(s, e) == s.take(pos).push(e) + s.skip(pos),
    decreases s.len(),
{
    if s.len() == 0 {
        assert(s.take(pos).push(e) + s.skip(pos) =~= seq![e]);
    } else if pos == s.len() {
        assert(s.take(pos).push(e) + s.skip(pos) =~= s.push(e));
    } else {
        assert(chars_less(s[s.len() - 1].name, e.name));
        let d = s.drop_last();
        assert forall|k: int| pos <= k < d.len() implies chars_less(#[trigger] d[k].name, e.name) by {
            assert(d[k] == s[k]);
        }
        if pos > 0 {
            assert(d[pos - 1] == s[pos - 1]);
        }
        lemma_insert_recording_at(d, e, pos);
        assert(d.take(pos).push(e) + d.skip(pos) + seq![s.last()] =~= s.take(pos).push(e) + s.skip(
            pos,
        ));
        assert(insert_recording(d, e).push(s.last()) =~= d.take(pos).push(e) + d.skip(pos) + seq![
            s.last(),
        ]);
    }
}

fn insert_recording_sorted(out: &mut Vec<RecordingItem>, e: RecordingItem)
    ensures
        recordings_view(final(out)@) == insert_recording(recordings_view(old(out)@), e@),
{
    let ghost sv = recordings_view(out@);
    let mut pos = out.len();
    while pos > 0 && str_less(out[pos - 1].name.as_str(), e.name.as_str())
        invariant
            sv == recordings_view(out@),
            pos <= out.len(),
            forall|k: int| pos <= k < sv.len() ==> chars_less(#[trigger] sv[k].name, e@.name),
        decreases pos,
    {
        assert(sv[pos - 1] == out@[pos - 1]@);
        pos -= 1;
    }
    proof {
        if pos > 0 {
            assert(sv[pos - 1] == out@[pos - 1]@);
        }
        lemma_insert_recording_at(sv, e@, pos as int);
    }
    let ghost ev = e@;
    out.insert(pos, e);
    assert(recordings_view(out@) =~= sv.take(pos as int).push(ev) + sv.skip(pos as int));
}

/// The voice notes to list from the files of the recordings directory:
/// the `.wav` files, by name from last to first.
pub fn recordings_listing(files: &Vec<RecordingItem>) -> (r: Vec<RecordingItem>)
    ensures
        recordings_view(r@) == sort_recordings(wav_only(recordings_view(files@))),
{
    let ghost all = recordings_view(files@);
    let mut out: Vec<RecordingItem> = Vec::new();
    let mut i: usize = 0;
    while i < files.len()
        invariant
            all == recordings_view(files@),
            i <= files.len(),
            recordings_view(out@) == sort_recordings(wav_only(all.take(i as int))),
        decreases files.len() - i,
    {
        assert(all.take(i + 1).drop_last() =~= all.take(i as int));
        assert(all[i as int] == files@[i as int]@);
        if is_wav_file(files[i].name.as_str()) {
            let item = RecordingItem {
                name: files[i].name.clone(),
                path: files[i].path.clone(),
                size_bytes: files[i].size_bytes,
            };
            assert(wav_only(all.take(i + 1)) == wav_only(all.take(i as int)).push(item@));
            assert(wav_only(all.take(i + 1)).drop_last() =~= wav_only(all.take(i as int)));
            insert_recording_sorted(&mut out, item);
        }
        i += 1;
    }
    assert(all.take(files.len() as int) =~= all);
    out
}

proof fn lemma_chars_less_irreflexive(a: Seq<char>)
    ensures
        !chars_less(a, a),
    decreases a.len(),
{
    if a.len() > 0 {
        lemma_chars_less_irreflexive(a.skip(1));
    }
}

proof fn lemma_chars_less_total(a: Seq<char>, b: Seq<char>)
    ensures
        a != b ==> chars_less(a, b) || chars_less(b, a),
        !(chars_less(a, b) && chars_less(b, a)),
    decreases a.len(),
{
    if a.len() > 0 && b.len() > 0 && a[0] == b[0] {
        lemma_chars_less_total(a.skip(1), b.skip(1));
        if a.skip(1) == b.skip(1) {
            assert(a =~= seq![a[0]] + a.skip(1));
            assert(b =~= seq![b[0]] + b.skip(1));
            assert(a =~= b);
        }
    } else if a.len() == 0 && b.len() == 0 {
        assert(a =~= b);
    }
}

proof fn lemma_chars_less_transitive(a: Seq<char>, b: Seq<char>, c: Seq<char>)
    requires
        chars_less(a, b),
        chars_less(b, c),
    ensures
        chars_less(a, c),
    decreases a.len(),
{
    if a.len() > 0 && b.len() > 0 && c.len() > 0 && a[0] == b[0] && b[0] == c[0] {
        lemma_chars_less_transitive(a.skip(1), b.skip(1), c.skip(1));
    }
}

/// Not after, in character order, is transitive.
proof fn lemma_chars_not_less_transitive(a: Seq<char>, b: Seq<char>, c: Seq<char>)
    requires
        !chars_less(a, b),
        !chars_less(b, c),
    ensures
        !chars_less(a, c),
{
    lemma_chars_less_total(a, b);
    lemma_chars_less_total(b, c);
    lemma_chars_less_total(a, c);
    if chars_less(a, c) {
        if a == b {
            assert(chars_less(b, c));
        } else if b == c {
            assert(chars_less(a, b));
        } else {
            lemma_chars_less_transitive(c, b, a);
        }
    }
}

proof fn lemma_entry_order(a: EntryView, b: EntryView, c: EntryView)
    ensures
        !entry_before(a, a),
        entry_before(a, b) ==> !entry_before(b, a),
        !entry_before(a, b) && !entry_before(b, c) ==> !entry_before(a, c),
{
    lemma_chars_less_irreflexive(a.name);
    lemma_chars_less_total(a.name, b.name);
    if !entry_before(a, b) && !entry_before(b, c) {
        if a.is_dir == b.is_dir && b.is_dir == c.is_dir {
            lemma_chars_not_less_transitive(a.name, b.name, c.name);
        }
    }
}

/// Is a listing in order: no entry comes after one that should follow it.
pub open spec fn entries_in_order(s: Seq<EntryView>) -> bool {
    forall|i: int, j: int| 0 <= i < j < s.len() ==> !entry_before(#[trigger] s[j], #[trigger] s[i])
}

proof fn lemma_insert_entry_members(s: Seq<EntryView>, e: EntryView)
    ensures
        insert_entry(s, e).len() == s.len() + 1,
        forall|k: int|
            0 <= k < insert_entry(s, e).len() ==> #[trigger] insert_entry(s, e)[k] == e || s.contains(
                insert_entry(s, e)[k],
            ),
    decreases s.len(),
{
    if s.len() > 0 && entry_before(e, s.last()) {
        let d = s.drop_last();
        lemma_insert_entry_members(d, e);
        assert forall|k: int| 0 <= k < insert_entry(s, e).len() implies #[trigger] insert_entry(
            s,
            e,
        )[k] == e || s.contains(insert_entry(s, e)[k]) by {
            if k < insert_entry(d, e).len() {
                let x = insert_entry(d, e)[k];
                if x != e {
                    let j = choose|j: int| 0 <= j < d.len() && d[j] == x;
                    assert(s[j] == x);
                }
            } else {
                assert(s[s.len() - 1] == s.last());
            }
        }
    } else if s.len() > 0 {
        assert forall|k: int| 0 <= k < insert_entry(s, e).len() implies #[trigger] insert_entry(
            s,
            e,
        )[k] == e || s.contains(insert_entry(s, e)[k]) by {
            if k < s.len() {
                assert(s[k] == insert_entry(s, e)[k]);
            }
        }
    }
}

proof fn lemma_insert_entry_in_order(s: Seq<EntryView>, e: EntryView)
    requires
        entries_in_order(s),
    ensures
        entries_in_order(insert_entry(s, e)),
    decreases s.len(),
{
    if s.len() == 0 {
    } else if entry_before(e, s.last()) {
        let d = s.drop_last();
        let last = s.last();
        assert(entries_in_order(d));
        lemma_insert_entry_in_order(d, e);
        lemma_insert_entry_members(d, e);
        let r = insert_entry(s, e);
        assert forall|i: int, j: int| 0 <= i < j < r.len() implies !entry_before(
            #[trigger] r[j],
            #[trigger] r[i],
        ) by {
            if j == r.len() - 1 {
                let x = insert_entry(d, e)[i];
                assert(r[i] == x);
                lemma_entry_order(e, last, last);
                if x != e {
                    let k = choose|k: int| 0 <= k < d.len() && d[k] == x;
                    assert(s[k] == x);
                    assert(s[s.len() - 1] == last);
                }
            } else {
                assert(r[i] == insert_entry(d, e)[i]);
                assert(r[j] == insert_entry(d, e)[j]);
            }
        }
    } else {
        let last = s.last();
        let r = s.push(e);
        assert forall|i: int, j: int| 0 <= i < j < r.len() implies !entry_before(
            #[trigger] r[j],
            #[trigger] r[i],
        ) by {
            if j == r.len() - 1 {
                if i < s.len() - 1 {
                    assert(s[s.len() - 1] == last);
                    assert(!entry_before(s[s.len() - 1], s[i]));
                    lemma_entry_order(e, last, s[i]);
                }
            } else {
                assert(r[i] == s[i]);
                assert(r[j] == s[j]);
            }
        }
    }
}

proof fn lemma_sort_entries_in_order(s: Seq<EntryView>)
    ensures
        entries_in_order(sort_entries(s)),
        sort_entries(s).len() == s.len(),
    decreases s.len(),
{
    if s.len() > 0 {
        lemma_sort_entries_in_order(s.drop_last());
        lemma_insert_entry_in_order(sort_entries(s.drop_last()), s.last());
        lemma_insert_entry_members(sort_entries(s.drop_last()), s.last());
    }
}

/// A listing shows directories before files and names in character order,
/// one row per entry read, with "> Back" last.
pub proof fn law_listing_in_order(entries: Seq<EntryView>, limit: usize)
    ensures
        ({
            let shown = sort_entries(entries.take(listed_count(entries.len(), limit) as int));
            &&& entries_in_order(shown)
            &&& shown.len() == listed_count(entries.len(), limit)
            &&& shown.push(back_entry()).last() == back_entry()
        }),
{
    lemma_sort_entries_in_order(entries.take(listed_count(entries.len(), limit) as int));
}

proof fn lemma_last_slash_at(s: Seq<char>, i: int, j: int)
    requires
        0 <= i < j <= s.len(),
        s[i] == '/',
        forall|k: int| i < k < j ==> s[k] != '/',
    ensures
        last_slash_before(s, j) == i,
    decreases j,
{
    if j - 1 > i {
        lemma_last_slash_at(s, i, j - 1);
    }
}

/// The directory that saving the configuration creates is the firmware's
/// directory under the same root.
pub proof fn law_config_parent_is_app_dir(root: Seq<char>)
    ensures
        parent_of(config_path_of(root)) == Some(app_dir_of(root)),
{
    reveal_strlit("channel9");
    reveal_strlit("config.json");
    reveal_strlit("/");
    let app = app_dir_of(root);
    assert(app.len() > 0 && app.last() == '9');
    let path = config_path_of(root);
    assert(path == app + "/"@ + "config.json"@);
    assert(path.last() == 'n');
    assert(without_trailing_slashes(path) == path);
    assert(path[app.len() as int] == '/');
    assert forall|k: int| app.len() < k < path.len() implies path[k] != '/' by {
        assert(path[k] == "config.json"@[k - app.len() - 1]);
    }
    lemma_last_slash_at(path, app.len() as int, path.len() as int);
    assert(path.take(app.len() as int) =~= app);
    assert(without_trailing_slashes(app) == app);
}

/// Are recordings listed from the last name to the first.
pub open spec fn recordings_in_order(s: Seq<RecordingView>) -> bool {
    forall|i: int, j: int| 0 <= i < j < s.len() ==> !chars_less(#[trigger] s[i].name, #[trigger] s[j].name)
}

proof fn lemma_insert_recording_members(s: Seq<RecordingView>, e: RecordingView)
    ensures
        insert_recording(s, e).len() == s.len() + 1,
        forall|k: int|
            0 <= k < insert_recording(s, e).len() ==> #[trigger] insert_recording(s, e)[k] == e
                || s.contains(insert_recording(s, e)[k]),
    decreases s.len(),
{
    if s.len() > 0 && chars_less(s.last().name, e.name) {
        let d = s.drop_last();
        lemma_insert_recording_members(d, e);
        assert forall|k: int| 0 <= k < insert_recording(s, e).len() implies #[trigger] insert_recording(
            s,
            e,
        )[k] == e || s.contains(insert_recording(s, e)[k]) by {
            if k < insert_recording(d, e).len() {
                let x = insert_recording(d, e)[k];
                if x != e {
                    let j = choose|j: int| 0 <= j < d.len() && d[j] == x;
                    assert(s[j] == x);
                }
            } else {
                assert(s[s.len() - 1] == s.last());
            }
        }
    } else if s.len() > 0 {
        assert forall|k: int| 0 <= k < insert_recording(s, e).len() implies #[trigger] insert_recording(
            s,
            e,
        )[k] == e || s.contains(insert_recording(s, e)[k]) by {
            if k < s.len() {
                assert(s[k] == insert_recording(s, e)[k]);
            }
        }
    }
}

proof fn lemma_insert_recording_in_order(s: Seq<RecordingView>, e: RecordingView)
    requires
        recordings_in_order(s),
    ensures
        recordings_in_order(insert_recording(s, e)),
    decreases s.len(),
{
    if s.len() == 0 {
    } else if chars_less(s.last().name, e.name) {
        let d = s.drop_last();
        let last = s.last();
        assert(recordings_in_order(d));
        lemma_insert_recording_in_order(d, e);
        lemma_insert_recording_members(d, e);
        let r = insert_recording(s, e);
        assert forall|i: int, j: int| 0 <= i < j < r.len() implies !chars_less(
            #[trigger] r[i].name,
            #[trigger] r[j].name,
        ) by {
            if j == r.len() - 1 {
                let x = insert_recording(d, e)[i];
                assert(r[i] == x);
                assert(r[j] == last);
                lemma_chars_less_total(e.name, last.name);
                if x != e {
                    let k = choose|k: int| 0 <= k < d.len() && d[k] == x;
                    assert(s[k] == x);
                    assert(s[s.len() - 1] == last);
                }
            } else {
                assert(r[i] == insert_recording(d, e)[i]);
                assert(r[j] == insert_recording(d, e)[j]);
            }
        }
    } else {
        let last = s.last();
        let r = s.push(e);
        assert forall|i: int, j: int| 0 <= i < j < r.len() implies !chars_less(
            #[trigger] r[i].name,
            #[trigger] r[j].name,
        ) by {
            if j == r.len() - 1 {
                if i < s.len() - 1 {
                    assert(s[s.len() - 1] == last);
                    assert(!chars_less(s[i].name, s[s.len() - 1].name));
                    lemma_chars_not_less_transitive(s[i].name, last.name, e.name);
                }
            } else {
                assert(r[i] == s[i]);
                assert(r[j] == s[j]);
            }
        }
    }
}

proof fn lemma_sort_recordings_in_order(s: Seq<RecordingView>)
    ensures
        recordings_in_order(sort_recordings(s)),
        sort_recordings(s).len() == s.len(),
    decreases s.len(),
{
    if s.len() > 0 {
        lemma_sort_recordings_in_order(s.drop_last());
        lemma_insert_recording_in_order(sort_recordings(s.drop_last()), s.last());
        lemma_insert_recording_members(sort_recordings(s.drop_last()), s.last());
    }
}

/// The recorder lists its voice notes from the last name to the first, one
/// row per `.wav` file.
pub proof fn law_recordings_in_order(files: Seq<RecordingView>)
    ensures
        recordings_in_order(sort_recordings(wav_only(files))),
        sort_recordings(wav_only(files)).len() == wav_only(files).len(),
{
    lemma_sort_recordings_in_order(wav_only(files));
}

} // verus!
