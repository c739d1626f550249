use vstd::prelude::*;
use vstd::string::{StrSliceExecFns, StringExecFns};

use std::path::Path;

verus! {

broadcast use vstd::seq_lib::group_to_multiset_ensures;

/// The extension of a path, as `Path::extension` finds it.
pub uninterp spec fn extension_of(path: Seq<char>) -> Option<Seq<char>>;

/// The lower-case form of a string, as `str::to_lowercase` gives it.
pub uninterp spec fn lower_of(s: Seq<char>) -> Seq<char>;

/// A path's last component, as `Path::file_name` finds it.
pub uninterp spec fn file_name_of(path: Seq<char>) -> Option<Seq<char>>;

/// The parent of a path, as `Path::parent` finds it.
pub uninterp spec fn parent_of(path: Seq<char>) -> Option<Seq<char>>;

/// Relies on std::path::Path::extension: the text after the last dot of the
/// file name, if any. A path given as a `str` is valid Unicode, so the lossy
/// conversion keeps it as it is.
#[verifier::external_body]
fn path_extension(path: &str) -> (r: Option<String>)
    ensures
        r.is_some() == extension_of(path@).is_some(),
        r matches Some(e) ==> extension_of(path@) == Some(e@),
{
    Path::new(path).extension().map(|e| e.to_string_lossy().into_owned())
}

/// Relies on str::to_lowercase: the result depends on the characters alone.
#[verifier::external_body]
fn lowercase(s: &str) -> (r: String)
    ensures
        r@ == lower_of(s@),
{
    s.to_lowercase()
}

/// Relies on std::path::Path::file_name: the final component, if any. A path
/// given as a `str` is valid Unicode, so the lossy conversion keeps it as it is.
#[verifier::external_body]
pub(crate) fn path_file_name(path: &str) -> (r: Option<String>)
    ensures
        r.is_some() == file_name_of(path@).is_some(),
        r matches Some(n) ==> file_name_of(path@) == Some(n@),
{
    Path::new(path).file_name().map(|n| n.to_string_lossy().into_owned())
}

/// Relies on std::path::Path::parent: the path without its final component,
/// or None at a root or for an empty path.
#[verifier::external_body]
fn path_parent(path: &str) -> (r: Option<String>)
    ensures
        r.is_some() == parent_of(path@).is_some(),
        r matches Some(p) ==> parent_of(path@) == Some(p@),
{
    Path::new(path).parent().map(|p| p.to_string_lossy().into_owned())
}

/// The extensions, in lower case, of the files that the browser lists.
pub open spec fn audio_extension(e: Seq<char>) -> bool {
    e == "wav"@ || e == "mp3"@ || e == "ogg"@ || e == "flac"@
}

/// Whether a path names an audio file, by its extension in any case.
pub open spec fn audio_path(path: Seq<char>) -> bool {
    match extension_of(path) {
        Some(e) => audio_extension(lower_of(e)),
        None => false,
    }
}

/// Strings in lexicographic order of code points, which is the order of
/// their UTF-8 bytes.
pub open spec fn chars_le(a: Seq<char>, b: Seq<char>) -> bool
    decreases a.len(),
{
    if a.len() == 0 {
        true
    } else if b.len() == 0 {
        false
    } else if a[0] != b[0] {
        a[0] < b[0]
    } else {
        chars_le(a.drop_first(), b.drop_first())
    }
}

/// Optional names in order, a missing name first.
pub open spec fn name_le(a: Option<Seq<char>>, b: Option<Seq<char>>) -> bool {
    match (a, b) {
        (None, _) => true,
        (Some(_), None) => false,
        (Some(x), Some(y)) => chars_le(x, y),
    }
}

/// The selection after moving down in a list of `len` entries, wrapping to the first.
pub open spec fn next_index(i: usize, len: nat) -> usize {
    if len == 0 {
        i
    } else {
        ((i + 1) % (len as int)) as usize
    }
}

/// The selection after moving up in a list of `len` entries, wrapping to the last.
pub open spec fn prev_index(i: usize, len: nat) -> usize {
    if len == 0 {
        i
    } else if i == 0 {
        (len - 1) as usize
    } else {
        (i - 1) as usize
    }
}

/// One entry of a directory listing.
pub struct DirEntry {
    pub path: String,
    pub is_dir: bool,
}

/// Directories before files; within each, by file name.
pub open spec fn entry_le(a: DirEntry, b: DirEntry) -> bool {
    if a.is_dir != b.is_dir {
        a.is_dir
    } else {
        name_le(file_name_of(a.path@), file_name_of(b.path@))
    }
}

pub open spec fn sorted_entries(s: Seq<DirEntry>) -> bool {
    forall|i: int, j: int| 0 <= i < j < s.len() ==> entry_le(#[trigger] s[i], #[trigger] s[j])
}

/// Whether the browser lists an entry: directories and audio files.
pub open spec fn listed(e: DirEntry) -> bool {
    e.is_dir || audio_path(e.path@)
}

/// The listed entries among the first `k`, in order.
pub open spec fn listed_prefix(s: Seq<DirEntry>, k: int) -> Seq<DirEntry>
    decreases k,
{
    if k <= 0 {
        Seq::empty()
    } else if listed(s[k - 1]) {
        listed_prefix(s, k - 1).push(s[k - 1])
    } else {
        listed_prefix(s, k - 1)
    }
}

proof fn lemma_chars_le_total(a: Seq<char>, b: Seq<char>)
    ensures
        chars_le(a, b) || chars_le(b, a),
    decreases a.len(),
{
    if a.len() > 0 && b.len() > 0 && a[0] == b[0] {
        lemma_chars_le_total(a.drop_first(), b.drop_first());
    }
}

proof fn lemma_chars_le_trans(a: Seq<char>, b: Seq<char>, c: Seq<char>)
    requires
        chars_le(a, b),
        chars_le(b, c),
    ensures
        chars_le(a, c),
    decreases a.len(),
{
    if a.len() > 0 && b.len() > 0 && c.len() > 0 && a[0] == b[0] && b[0] == c[0] {
        lemma_chars_le_trans(a.drop_first(), b.drop_first(), c.drop_first());
    }
}

proof fn lemma_entry_le_total(a: DirEntry, b: DirEntry)
    ensures
        entry_le(a, b) || entry_le(b, a),
{
    if let (Some(x), Some(y)) = (file_name_of(a.path@), file_name_of(b.path@)) {
        lemma_chars_le_total(x, y);
    }
}

proof fn lemma_entry_le_trans(a: DirEntry, b: DirEntry, c: DirEntry)
    requires
        entry_le(a, b),
        entry_le(b, c),
    ensures
        entry_le(a, c),
{
    if let (Some(x), Some(y), Some(z)) = (
        file_name_of(a.path@),
        file_name_of(b.path@),
        file_name_of(c.path@),
    ) {
        if a.is_dir == b.is_dir && b.is_dir == c.is_dir {
            lemma_chars_le_trans(x, y, z);
        }
    }
}

/// Compares two optional names.
fn names_in_order(a: &Option<String>, b: &Option<String>) -> (r: bool)
    ensures
        r == name_le(
            match a {
                Some(x) => Some(x@),
                None => None,
            },
            match b {
                Some(y) => Some(y@),
                None => None,
            },
        ),
{
    match (a, b) {
        (None, _) => true,
        (Some(_), None) => false,
        (Some(x), Some(y)) => {
            let xs = x.as_str();
            let ys = y.as_str();
            let xn = xs.unicode_len();
            let yn = ys.unicode_len();
            let mut i: usize = 0;
            assert(xs@.skip(0) =~= xs@);
            assert(ys@.skip(0) =~= ys@);
            while i < xn && i < yn && xs.get_char(i) == ys.get_char(i)
                invariant
                    xs@ == x@,
                    ys@ == y@,
                    xn == xs@.len(),
                    yn == ys@.len(),
                    i <= xn,
                    i <= yn,
                    chars_le(xs@, ys@) == chars_le(xs@.skip(i as int), ys@.skip(i as int)),
                decreases xn - i,
            {
                assert(xs@.skip(i as int).drop_first() =~= xs@.skip(i + 1));
                assert(ys@.skip(i as int).drop_first() =~= ys@.skip(i + 1));
                i = i + 1;
            }
            if i == xn {
                true
            } else if i == yn {
                false
            } else {
                xs.get_char(i) < ys.get_char(i)
            }
        },
    }
}

/// Whether entry `a` may stand before entry `b`.
fn entries_in_order(a: &DirEntry, b: &DirEntry) -> (r: bool)
    ensures
        r == entry_le(*a, *b),
{
    if a.is_dir != b.is_dir {
        a.is_dir
    } else {
        let na = path_file_name(a.path.as_str());
        let nb = path_file_name(b.path.as_str());
        names_in_order(&na, &nb)
    }
}

/// The browser's view of one directory: its path, the entries it lists and
/// the selected entry.
pub struct FileManager {
    pub current_dir: String,
    pub entries: Vec<DirEntry>,
    pub selected_index: usize,
}

impl FileManager {
    /// The selection points at an entry whenever there is one.
    pub open spec fn wf(&self) -> bool {
        self.entries@.len() > 0 ==> self.selected_index < self.entries@.len()
    }

    /// A browser on `current_dir` listing `listing`.
    pub fn new(current_dir: String, listing: Vec<DirEntry>) -> (r: Self)
        ensures
            r.wf(),
            r.current_dir@ == current_dir@,
            r.selected_index == 0,
            sorted_entries(r.entries@),
            r.entries@.to_multiset() == listed_prefix(listing@, listing@.len() as int).to_multiset(),
    {
        let mut manager = FileManager { current_dir, entries: Vec::new(), selected_index: 0 };
        manager.refresh_files(listing);
        manager
    }

    /// Whether `path` names an audio file: its extension, in lower case, is
    /// one of wav, mp3, ogg and flac.
    pub fn is_audio_file(&self, path: &str) -> (r: bool)
        ensures
            r == audio_path(path@),
    {
        match path_extension(path) {
            None => false,
            Some(ext) => {
                let e = lowercase(ext.as_str());
                let wav = String::from_str("wav");
                let mp3 = String::from_str("mp3");
                let ogg = String::from_str("ogg");
                let flac = String::from_str("flac");
                proof {
                    reveal_strlit("wav");
                    reveal_strlit("mp3");
                    reveal_strlit("ogg");
                    reveal_strlit("flac");
                }
                e == wav || e == mp3 || e == ogg || e == flac
            },
        }
    }

    /// Replaces the entries with the directories and audio files of
    /// `listing`, directories first and each group by file name. The
    /// selection goes back to the first entry when it no longer fits.
    pub fn refresh_files(&mut self, listing: Vec<DirEntry>)
        ensures
            final(self).wf(),
            final(self).current_dir == old(self).current_dir,
            sorted_entries(final(self).entries@),
            final(self).entries@.to_multiset() == listed_prefix(
                listing@,
                listing@.len() as int,
            ).to_multiset(),
            final(self).selected_index == if final(self).entries@.len() > 0
                && old(self).selected_index >= final(self).entries@.len() {
                0
            } else {
                old(self).selected_index
            },
    {
        let mut out: Vec<DirEntry> = Vec::new();
        let mut rest = listing;
        let ghost s = rest@;
        let n = rest.len();
        let mut k: usize = 0;
        while k < n
            invariant
                n == s.len(),
                k <= n,
                rest@ == s.skip(k as int),
                sorted_entries(out@),
                out@.to_multiset() == listed_prefix(s, k as int).to_multiset(),
            decreases n - k,
        {
            let e = rest.remove(0);
            assert(e == s[k as int]);
            assert(rest@ =~= s.skip(k + 1));
            let keep = e.is_dir || self.is_audio_file(e.path.as_str());
            if keep {
                let mut pos: usize = 0;
                while pos < out.len() && entries_in_order(&out[pos], &e)
                    invariant
                        pos <= out@.len(),
                        forall|j: int| 0 <= j < pos ==> entry_le(#[trigger] out@[j], e),
                    decreases out@.len() - pos,
                {
                    pos = pos + 1;
                }
                let ghost before = out@;
                proof {
                    if pos < before.len() {
                        lemma_entry_le_total(before[pos as int], e);
                        assert forall|j: int| pos <= j < before.len() implies entry_le(
                            e,
                            #[trigger] before[j],
                        ) by {
                            if j > pos {
                                lemma_entry_le_trans(e, before[pos as int], before[j]);
                            }
                        }
                    }
                }
                out.insert(pos, e);
                proof {
                    assert forall|i: int, j: int|
                        0 <= i < j < out@.len() implies entry_le(
                        #[trigger] out@[i],
                        #[trigger] out@[j],
                    ) by {
                        if j < pos {
                            assert(out@[i] == before[i] && out@[j] == before[j]);
                        } else if j == pos {
                            assert(out@[i] == before[i]);
                        } else if i < pos {
                            assert(out@[i] == before[i] && out@[j] == before[j - 1]);
                            lemma_entry_le_trans(before[i], e, before[j - 1]);
                        } else if i == pos {
                            assert(out@[j] == before[j - 1]);
                        } else {
                            assert(out@[i] == before[i - 1] && out@[j] == before[j - 1]);
                        }
                    }
                    vstd::seq_lib::to_multiset_insert(before, pos as int, e);
                    assert(listed_prefix(s, k + 1) == listed_prefix(s, k as int).push(e));
                }
            } else {
                assert(listed_prefix(s, k + 1) == listed_prefix(s, k as int));
            }
            k = k + 1;
        }
        self.entries = out;
        if self.entries.len() > 0 && self.selected_index >= self.entries.len() {
            self.selected_index = 0;
        }
    }

    /// Moves the selection one entry down, wrapping to the first.
    pub fn select_next(&mut self)
        requires
            old(self).wf(),
        ensures
            final(self).wf(),
            final(self).entries == old(self).entries,
            final(self).current_dir == old(self).current_dir,
            final(self).selected_index == next_index(
                old(self).selected_index,
                old(self).entries@.len(),
            ),
    {
        if self.entries.len() > 0 {
            self.selected_index = (self.selected_index + 1) % self.entries.len();
        }
    }

    /// Moves the selection one entry up, wrapping to the last.
    pub fn select_prev(&mut self)
        requires
            old(self).wf(),
        ensures
            final(self).wf(),
            final(self).entries == old(self).entries,
            final(self).current_dir == old(self).current_dir,
            final(self).selected_index == prev_index(
                old(self).selected_index,
                old(self).entries@.len(),
            ),
    {
        if self.entries.len() > 0 {
            if self.selected_index == 0 {
                self.selected_index = self.entries.len() - 1;
            } else {
                self.selected_index = self.selected_index - 1;
            }
        }
    }

    /// The path of the selected entry, if there is one.
    pub fn get_selected_file(&self) -> (r: Option<String>)
        requires
            self.wf(),
        ensures
            self.entries@.len() == 0 ==> r.is_none(),
            self.entries@.len() > 0 ==> (r matches Some(p) && p@
                == self.entries@[self.selected_index as int].path@),
    {
        if self.entries.len() == 0 {
            None
        } else {
            Some(self.entries[self.selected_index].path.clone())
        }
    }

    /// Whether the selected entry is a directory.
    pub fn selected_is_dir(&self) -> (r: bool)
        requires
            self.wf(),
        ensures
            r == (self.entries@.len() > 0 && self.entries@[self.selected_index as int].is_dir),
    {
        self.entries.len() > 0 && self.entries[self.selected_index].is_dir
    }

    /// Enters `path` when it is a directory: `listing` holds its entries, or
    /// is None when `path` is no directory, and nothing changes.
    pub fn change_directory(&mut self, path: String, listing: Option<Vec<DirEntry>>)
        requires
            old(self).wf(),
        ensures
            final(self).wf(),
            listing.is_none() ==> *final(self) == *old(self),
            listing matches Some(l) ==> {
                &&& final(self).current_dir@ == path@
                &&& final(self).selected_index == 0
                &&& sorted_entries(final(self).entries@)
                &&& final(self).entries@.to_multiset() == listed_prefix(
                    l@,
                    l@.len() as int,
                ).to_multiset()
            },
    {
        if let Some(l) = listing {
            self.current_dir = path;
            self.refresh_files(l);
            self.selected_index = 0;
        }
    }

    /// The parent of the current directory, if it has one.
    pub fn parent_dir(&self) -> (r: Option<String>)
        ensures
            r.is_some() == parent_of(self.current_dir@).is_some(),
            r matches Some(p) ==> parent_of(self.current_dir@) == Some(p@),
    {
        path_parent(self.current_dir.as_str())
    }

    /// Goes up to the parent directory, whose entries are `listing`; nothing
    /// changes at a root.
    pub fn go_to_parent_dir(&mut self, listing: Vec<DirEntry>)
        requires
            old(self).wf(),
        ensures
            final(self).wf(),
            parent_of(old(self).current_dir@).is_none() ==> *final(self) == *old(self),
            parent_of(old(self).current_dir@) matches Some(p) ==> {
                &&& final(self).current_dir@ == p
                &&& final(self).selected_index == 0
                &&& sorted_entries(final(self).entries@)
                &&& final(self).entries@.to_multiset() == listed_prefix(
                    listing@,
                    listing@.len() as int,
                ).to_multiset()
            },
    {
        if let Some(parent) = self.parent_dir() {
            self.current_dir = parent;
            self.refresh_files(listing);
            self.selected_index = 0;
        }
    }
}

} // verus!
