//! The mount table: its records, and how its text is read.
//!
//! The table is line-oriented text, `device mountpoint fstype [options...]`
//! on each line, fields separated by white space.

use crate::classify::{classify, has_nfs_type, is_nfs_type, kind_of, FilesystemKind};
use crate::text::{
    chars_of, find_char, first_char, is_space, lemma_blank_has_no_words, lemma_first_char,
    lemma_first_of_kind, lemma_first_word, lemma_lines_of_joined, lemma_single_line, lines,
    lines_from, next_word, starts_with, string_of, words,
};
use vstd::prelude::*;
use vstd::slice::slice_subrange;

verus! {

/// One row of the mount table.
#[derive(Clone, Debug, PartialEq, Eq)]
pub struct MountRecord {
    /// The server a network filesystem is mounted from; absent for local
    /// filesystems.
    pub host: Option<String>,
    /// The device path, or for a network filesystem the path the server
    /// exports.
    pub device: String,
    /// The local mount point.
    pub directory: String,
    /// The filesystem type as the table reports it.
    pub filesystem_type: String,
}

/// What a [`MountRecord`] says, as plain text.
pub struct MountView {
    pub host: Option<Seq<char>>,
    pub device: Seq<char>,
    pub directory: Seq<char>,
    pub filesystem_type: Seq<char>,
}

impl View for MountRecord {
    type V = MountView;

    open spec fn view(&self) -> MountView {
        MountView {
            host: match self.host {
                Some(h) => Some(h@),
                None => None,
            },
            device: self.device@,
            directory: self.directory@,
            filesystem_type: self.filesystem_type@,
        }
    }
}

/// `path` is absolute: it begins with a slash.
pub open spec fn is_absolute(path: Seq<char>) -> bool {
    path.len() > 0 && path[0] == '/'
}

impl MountView {
    /// The invariant of a record: its mount point is an absolute path.
    pub open spec fn well_formed(self) -> bool {
        is_absolute(self.directory)
    }

    /// The quota mechanism of the mount.
    pub open spec fn kind(self) -> FilesystemKind {
        kind_of(self.filesystem_type, self.host is Some)
    }
}

/// What a record says, where there is one.
pub open spec fn view_of(record: Option<MountRecord>) -> Option<MountView> {
    match record {
        Some(r) => Some(r@),
        None => None,
    }
}

/// What each record of `records` says.
pub open spec fn views(records: Seq<MountRecord>) -> Seq<MountView> {
    records.map_values(|r: MountRecord| r@)
}

/// The record that one line of the table stands for, if it stands for one.
///
/// A line stands for a record when it has at least three words, the first
/// of them not beginning with `#`, and names an absolute mount point. The words are device,
/// mount point and type; what follows them is ignored. Where the type begins
/// with `nfs`, the device word must hold a colon: what precedes the first
/// colon is the host, what follows it the exported path.
pub open spec fn record_of_line(line: Seq<char>) -> Option<MountView> {
    let w = words(line);
    if w.len() < 3 || w[0][0] == '#' || !is_absolute(w[1]) {
        None
    } else if is_nfs_type(w[2]) {
        let colon = first_char(w[0], 0, ':');
        if colon < w[0].len() {
            Some(
                MountView {
                    host: Some(w[0].take(colon)),
                    device: w[0].skip(colon + 1),
                    directory: w[1],
                    filesystem_type: w[2],
                },
            )
        } else {
            None
        }
    } else {
        Some(MountView { host: None, device: w[0], directory: w[1], filesystem_type: w[2] })
    }
}

/// The records of the given lines, in the order of the lines; a line that
/// stands for no record leaves no trace.
pub open spec fn records_of(table: Seq<Seq<char>>) -> Seq<MountView>
    decreases table.len(),
{
    if table.len() == 0 {
        Seq::empty()
    } else {
        match record_of_line(table[0]) {
            Some(r) => seq![r] + records_of(table.drop_first()),
            None => records_of(table.drop_first()),
        }
    }
}

/// The records of a mount table given as text.
pub open spec fn mount_table(text: Seq<char>) -> Seq<MountView> {
    records_of(lines(text))
}

/// What a line that stands for a record looks like, and what the record
/// takes from it: the line has three words or more and is no comment; its
/// second word is the mount point, which is absolute, and its third the
/// type. For an NFS type the first word is host, colon and exported path,
/// the host holding no colon; for any other type it is the device.
pub proof fn lemma_record_shape(line: Seq<char>)
    ensures
        record_of_line(line) matches Some(r) ==> {
            let w = words(line);
            &&& w.len() >= 3
            &&& w[0][0] != '#'
            &&& r.well_formed()
            &&& r.directory == w[1]
            &&& r.filesystem_type == w[2]
            &&& is_nfs_type(w[2]) ==> {
                &&& r.host matches Some(host)
                &&& !host.contains(':')
                &&& host + seq![':'] + r.device == w[0]
            }
            &&& !is_nfs_type(w[2]) ==> r.host is None && r.device == w[0]
        },
{
    let w = words(line);
    if record_of_line(line) is Some && is_nfs_type(w[2]) {
        lemma_first_char(w[0], 0, ':');
        let colon = first_char(w[0], 0, ':');
        let host = w[0].take(colon);
        assert(host + seq![':'] + w[0].skip(colon + 1) =~= w[0]);
        if host.contains(':') {
            let i = choose|i: int| 0 <= i < host.len() && host[i] == ':';
            assert(w[0][i] == ':');
        }
    }
}

/// A blank line stands for no record.
pub proof fn lemma_blank_line_skipped(line: Seq<char>)
    requires
        forall|i: int| 0 <= i < line.len() ==> is_space(#[trigger] line[i]),
    ensures
        record_of_line(line) is None,
{
    lemma_blank_has_no_words(line);
}

/// A comment line stands for no record: one whose first character that is
/// not white space, at `start`, is `#`.
pub proof fn lemma_comment_line_skipped(line: Seq<char>, start: int)
    requires
        0 <= start < line.len(),
        line[start] == '#',
        forall|i: int| 0 <= i < start ==> is_space(#[trigger] line[i]),
    ensures
        record_of_line(line) is None,
{
    lemma_first_word(line, start);
}

/// A line with fewer than three fields stands for no record.
pub proof fn lemma_short_line_skipped(line: Seq<char>)
    requires
        words(line).len() < 3,
    ensures
        record_of_line(line) is None,
{
}

/// A line of an NFS type whose device field holds no colon stands for no
/// record.
pub proof fn lemma_nfs_line_without_host_skipped(line: Seq<char>)
    requires
        words(line).len() >= 3,
        is_nfs_type(words(line)[2]),
        !words(line)[0].contains(':'),
    ensures
        record_of_line(line) is None,
{
    let device = words(line)[0];
    lemma_first_char(device, 0, ':');
    let colon = first_char(device, 0, ':');
    if colon < device.len() {
        assert(device.contains(':'));
    }
}

/// The records of two runs of lines, one after the other, are the records
/// of the first run followed by those of the second.
pub proof fn lemma_records_of_joined(a: Seq<Seq<char>>, b: Seq<Seq<char>>)
    ensures
        records_of(a + b) == records_of(a) + records_of(b),
    decreases a.len(),
{
    if a.len() == 0 {
        assert(a + b =~= b);
        assert(records_of(a) + records_of(b) =~= records_of(b));
    } else {
        lemma_records_of_joined(a.drop_first(), b);
        assert((a + b).drop_first() =~= a.drop_first() + b);
        assert((a + b)[0] == a[0]);
        match record_of_line(a[0]) {
            Some(r) => {
                assert(seq![r] + (records_of(a.drop_first()) + records_of(b)) =~= (seq![r]
                    + records_of(a.drop_first())) + records_of(b));
            },
            None => {},
        }
    }
}

/// A table of one line holds the record of that line, or nothing.
pub proof fn lemma_table_of_line(line: Seq<char>)
    requires
        !line.contains('\n'),
    ensures
        mount_table(line) == match record_of_line(line) {
            Some(r) => seq![r],
            None => Seq::empty(),
        },
{
    lemma_single_line(line);
    let only = seq![line];
    assert(only.drop_first() =~= Seq::<Seq<char>>::empty());
    assert(records_of(only.drop_first()) =~= Seq::<MountView>::empty());
    match record_of_line(line) {
        Some(r) => {
            assert(seq![r] + Seq::<MountView>::empty() =~= seq![r]);
        },
        None => {},
    }
}

/// The table of two texts joined by a line feed holds the records of the
/// first text followed by those of the second: records keep the order of
/// their lines.
pub proof fn lemma_table_of_joined(a: Seq<char>, b: Seq<char>)
    ensures
        mount_table(a + seq!['\n'] + b) == mount_table(a) + mount_table(b),
{
    lemma_lines_of_joined(a, b);
    lemma_records_of_joined(lines(a), lines(b));
}

/// A line that stands for no record leaves no trace in the table: with the
/// line or without it, the table holds the same records.
pub proof fn lemma_skipped_line_leaves_no_trace(
    before: Seq<char>,
    line: Seq<char>,
    after: Seq<char>,
)
    requires
        !line.contains('\n'),
        record_of_line(line) is None,
    ensures
        mount_table(before + seq!['\n'] + line + seq!['\n'] + after) == mount_table(
            before + seq!['\n'] + after,
        ),
{
    let tail = line + seq!['\n'] + after;
    assert(before + seq!['\n'] + line + seq!['\n'] + after =~= before + seq!['\n'] + tail);
    lemma_table_of_joined(before, tail);
    lemma_table_of_joined(line, after);
    lemma_table_of_line(line);
    lemma_table_of_joined(before, after);
    assert(Seq::<MountView>::empty() + mount_table(after) =~= mount_table(after));
}

impl MountRecord {
    /// Makes a record, provided that `directory` is an absolute path.
    pub fn new(
        host: Option<String>,
        device: String,
        directory: String,
        filesystem_type: String,
    ) -> (record: Option<MountRecord>)
        ensures
            record is Some <==> is_absolute(directory@),
            record matches Some(r) ==> r.host == host && r.device == device && r.directory
                == directory && r.filesystem_type == filesystem_type && r@.well_formed(),
    {
        let absolute = starts_with(directory.as_str(), "/");
        proof {
            reveal_strlit("/");
            let d = directory@;
            if absolute {
                assert(d.subrange(0, 1)[0] == '/');
            }
            if is_absolute(d) {
                assert(d.subrange(0, 1) =~= "/"@);
            }
        }
        if absolute {
            Some(MountRecord { host, device, directory, filesystem_type })
        } else {
            None
        }
    }

    /// The quota mechanism of this mount.
    pub fn kind(&self) -> (kind: FilesystemKind)
        ensures
            kind == self@.kind(),
    {
        classify(self.filesystem_type.as_str(), self.host.is_some())
    }
}

/// Reads one line of the table given as characters.
pub fn parse_chars(line: &[char]) -> (record: Option<MountRecord>)
    ensures
        view_of(record) == record_of_line(line@),
{
    let ghost w = words(line@);
    let (s0, e0) = match next_word(line, 0) {
        Some(bounds) => bounds,
        None => {
            return None;
        },
    };
    proof {
        lemma_first_of_kind(line@, 0, false);
    }
    assert(w[0] == line@.subrange(s0 as int, e0 as int));
    if line[s0] == '#' {
        return None;
    }
    let (s1, e1) = match next_word(line, e0) {
        Some(bounds) => bounds,
        None => {
            return None;
        },
    };
    let (s2, e2) = match next_word(line, e1) {
        Some(bounds) => bounds,
        None => {
            return None;
        },
    };
    assert(w.len() >= 3);
    assert(w[1] == line@.subrange(s1 as int, e1 as int));
    assert(w[2] == line@.subrange(s2 as int, e2 as int));
    if line[s1] != '/' {
        return None;
    }
    let first = slice_subrange(line, s0, e0);
    let directory = string_of(slice_subrange(line, s1, e1));
    let filesystem_type = string_of(slice_subrange(line, s2, e2));
    if has_nfs_type(filesystem_type.as_str()) {
        let colon = find_char(first, 0, ':');
        if colon < first.len() {
            let host = string_of(slice_subrange(first, 0, colon));
            let device = string_of(slice_subrange(first, colon + 1, first.len()));
            Some(MountRecord { host: Some(host), device, directory, filesystem_type })
        } else {
            None
        }
    } else {
        let device = string_of(first);
        Some(MountRecord { host: None, device, directory, filesystem_type })
    }
}

/// Reads one line of the table.
pub fn parse_line(line: &str) -> (record: Option<MountRecord>)
    ensures
        view_of(record) == record_of_line(line@),
{
    let chars = chars_of(line);
    parse_chars(chars.as_slice())
}

/// Reads the mount table from its text.
///
/// The records come in the order of their lines. Blank lines, comment
/// lines, lines with fewer than three fields, lines whose mount point is
/// not absolute and NFS lines without a host are passed over; no text makes
/// the read fail.
pub fn read_mtab(text: &str) -> (records: Vec<MountRecord>)
    ensures
        views(records@) == mount_table(text@),
        forall|i: int| 0 <= i < records.len() ==> (#[trigger] records[i])@.well_formed(),
{
    let chars = chars_of(text);
    let s = chars.as_slice();
    let mut records: Vec<MountRecord> = Vec::new();
    let mut from: usize = 0;
    loop
        invariant_except_break
            mount_table(text@) == views(records@) + records_of(lines_from(s@, from as int)),
        invariant
            from <= s.len(),
            s@ == text@,
            forall|i: int| 0 <= i < records.len() ==> (#[trigger] records[i])@.well_formed(),
        ensures
            views(records@) == mount_table(text@),
            forall|i: int| 0 <= i < records.len() ==> (#[trigger] records[i])@.well_formed(),
        decreases s.len() - from,
    {
        let end = find_char(s, from, '\n');
        let ghost before = records@;
        let ghost line = s@.subrange(from as int, end as int);
        let ghost rest = if end < s.len() {
            lines_from(s@, end as int + 1)
        } else {
            Seq::<Seq<char>>::empty()
        };
        assert(lines_from(s@, from as int) =~= seq![line] + rest);
        assert((seq![line] + rest).drop_first() =~= rest);
        assert(records_of(Seq::<Seq<char>>::empty()) =~= Seq::<MountView>::empty());
        match parse_chars(slice_subrange(s, from, end)) {
            Some(r) => {
                records.push(r);
                assert(views(records@) =~= views(before).push(r@));
                assert(views(before) + (seq![r@] + records_of(rest)) =~= views(records@)
                    + records_of(rest));
            },
            None => {},
        }
        if end >= s.len() {
            assert(views(records@) + Seq::<MountView>::empty() =~= views(records@));
            break;
        }
        from = end + 1;
    }
    records
}

} // verus!
