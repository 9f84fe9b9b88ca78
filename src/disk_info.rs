//! Reading the host's disk tool output: which physical disks exist, their
//! sizes and volume names, and the candidate media built from them.

use vstd::prelude::*;
use crate::safety::{is_reserved_disk, is_system_disk, size_in_window, SDCard, MAX_SD_SIZE_BYTES, MIN_SD_SIZE_BYTES};
use crate::text::{
    contains_seq, contains_text, find_first, first_at, matches_at, occurs_at, push_text,
    same_text, strip_leading, trim_leading, trim_text, trimmed,
};
use crate::transfer::{find_last, lemma_last_at_unique, first_word, first_word_of, last_at, lines_of, number_of, parse_number, split_lines};

verus! {

/// The volume name shown for a partition without a file system.
pub const NO_FILE_SYSTEM: &'static str = "Not applicable (no file system)";

/// A size line of the disk tool: `Disk Size: 31.9 GB (31914983424 Bytes)`.
pub open spec fn is_size_line(l: Seq<char>) -> bool {
    contains_seq(l, "Disk Size:"@) || contains_seq(l, "Total Size:"@)
}

/// The byte count between the first `(` and the first ` Bytes)`.
pub open spec fn has_byte_span(l: Seq<char>) -> bool {
    exists|a: int, b: int| first_at(l, "("@, a) && first_at(l, " Bytes)"@, b) && a + 1 <= b
}

/// The bounds of the byte count, where there is one.
pub open spec fn byte_span(l: Seq<char>) -> (int, int) {
    choose|a: int, b: int| first_at(l, "("@, a) && first_at(l, " Bytes)"@, b) && a + 1 <= b
}

/// The size a line reports, if it is a size line with a readable count.
pub open spec fn size_of_line(l: Seq<char>) -> Option<u64> {
    if is_size_line(l) && has_byte_span(l) {
        number_of(l.subrange(byte_span(l).0 + 1, byte_span(l).1))
    } else {
        None
    }
}

/// The first size the lines report.
pub open spec fn first_size(ls: Seq<Seq<char>>) -> Option<u64>
    decreases ls.len(),
{
    if ls.len() == 0 {
        None
    } else {
        match first_size(ls.drop_last()) {
            Some(v) => Some(v),
            None => size_of_line(ls.last()),
        }
    }
}

proof fn lemma_first_at_unique(s: Seq<char>, p: Seq<char>, a: int, b: int)
    requires
        first_at(s, p, a),
        first_at(s, p, b),
    ensures
        a == b,
{
    if a < b {
        assert(!occurs_at(s, a, p));
    } else if b < a {
        assert(!occurs_at(s, b, p));
    }
}

/// The size one line reports.
pub fn line_size(l: &str) -> (r: Option<u64>)
    ensures
        r == size_of_line(l@),
{
    if !(contains_text(l, "Disk Size:") || contains_text(l, "Total Size:")) {
        return None;
    }
    let open = find_first(l, "(");
    let close = find_first(l, " Bytes)");
    match (open, close) {
        (Some(a), Some(b)) => {
            proof {
                assert forall|x: int, y: int|
                    first_at(l@, "("@, x) && first_at(l@, " Bytes)"@, y) implies x == a && y == b by {
                    lemma_first_at_unique(l@, "("@, x, a as int);
                    lemma_first_at_unique(l@, " Bytes)"@, y, b as int);
                }
            }
            if a < b {
                assert(first_at(l@, "("@, a as int) && first_at(l@, " Bytes)"@, b as int));
                assert(has_byte_span(l@));
                parse_number(l.substring_char(a + 1, b))
            } else {
                None
            }
        },
        _ => {
            proof {
                assert forall|x: int, y: int|
                    first_at(l@, "("@, x) && first_at(l@, " Bytes)"@, y) implies false by {
                    if open is None {
                        assert(!occurs_at(l@, x, "("@));
                    } else {
                        assert(!occurs_at(l@, y, " Bytes)"@));
                    }
                }
            }
            None
        },
    }
}

/// The disk's size in bytes, from the disk tool's information output.
pub fn disk_size_from_info(info: &str) -> (r: Option<u64>)
    ensures
        r == first_size(lines_of(info@)),
{
    let lines = split_lines(info);
    let ghost ls = lines@.map_values(|l: String| l@);
    assert(ls =~= lines_of(info@));
    let mut i: usize = 0;
    while i < lines.len()
        invariant
            i <= lines@.len(),
            ls == lines@.map_values(|l: String| l@),
            ls == lines_of(info@),
            first_size(ls.subrange(0, i as int)) is None,
        decreases lines@.len() - i,
    {
        let ghost pre = ls.subrange(0, i + 1);
        assert(pre.drop_last() =~= ls.subrange(0, i as int));
        assert(pre.last() == lines@[i as int]@);
        let s = line_size(lines[i].as_str());
        assert(first_size(pre) == s);
        if s.is_some() {
            proof {
                lemma_first_size_prefix(ls, i + 1);
                assert(first_size(ls) == s);
            }
            return s;
        }
        i = i + 1;
    }
    assert(ls.subrange(0, i as int) =~= ls);
    None
}

proof fn lemma_first_size_prefix(ls: Seq<Seq<char>>, k: int)
    requires
        0 <= k <= ls.len(),
        first_size(ls.subrange(0, k)) is Some,
    ensures
        first_size(ls) == first_size(ls.subrange(0, k)),
    decreases ls.len() - k,
{
    if k == ls.len() {
        assert(ls.subrange(0, k) =~= ls);
    } else {
        assert(ls.subrange(0, k + 1).drop_last() =~= ls.subrange(0, k));
        lemma_first_size_prefix(ls, k + 1);
    }
}

/// A line of the disk list that names a physical disk that is not
/// synthesized: `/dev/disk11 (external, physical):`.
pub open spec fn is_physical_line(l: Seq<char>) -> bool {
    occurs_at(l, 0, "/dev/disk"@) && contains_seq(l, "physical"@) && !contains_seq(l, "synthesized"@)
}

/// The disk identifier a list line names.
pub open spec fn listed_id(l: Seq<char>) -> Seq<char> {
    strip_leading(first_word(l), "/dev/"@)
}

/// The candidate disks of a disk list, system disks left out.
pub open spec fn candidate_ids(ls: Seq<Seq<char>>) -> Seq<Seq<char>>
    decreases ls.len(),
{
    if ls.len() == 0 {
        Seq::empty()
    } else {
        candidate_ids(ls.drop_last()) + if is_physical_line(ls.last()) && !is_reserved_disk(
            listed_id(ls.last()),
        ) {
            seq![listed_id(ls.last())]
        } else {
            Seq::empty()
        }
    }
}

/// The identifiers of the physical, non-system disks of a disk list.
pub fn candidate_disk_ids(listing: &str) -> (r: Vec<String>)
    ensures
        r@.map_values(|s: String| s@) == candidate_ids(lines_of(listing@)),
{
    let lines = split_lines(listing);
    let ghost ls = lines@.map_values(|l: String| l@);
    assert(ls =~= lines_of(listing@));
    let mut out: Vec<String> = Vec::new();
    let mut i: usize = 0;
    while i < lines.len()
        invariant
            i <= lines@.len(),
            ls == lines@.map_values(|l: String| l@),
            ls == lines_of(listing@),
            out@.map_values(|s: String| s@) == candidate_ids(ls.subrange(0, i as int)),
        decreases lines@.len() - i,
    {
        let l = lines[i].as_str();
        let ghost pre = ls.subrange(0, i + 1);
        assert(pre.drop_last() =~= ls.subrange(0, i as int));
        assert(pre.last() == l@);
        if matches_at(l, 0, "/dev/disk") && contains_text(l, "physical") && !contains_text(l, "synthesized") {
            let id = trim_leading(first_word_of(l), "/dev/");
            if !is_system_disk(id) {
                let ghost before = out@.map_values(|s: String| s@);
                out.push(String::from_str(id));
                assert(out@.map_values(|s: String| s@) =~= before + seq![id@]);
            } else {
                assert(candidate_ids(pre) =~= candidate_ids(ls.subrange(0, i as int)));
            }
        } else {
            assert(candidate_ids(pre) =~= candidate_ids(ls.subrange(0, i as int)));
        }
        i = i + 1;
    }
    assert(ls.subrange(0, i as int) =~= ls);
    out
}

/// The value of a `Volume Name:` line: what follows its last `:`, trimmed.
pub open spec fn volume_of_line(l: Seq<char>) -> Option<Seq<char>> {
    if !contains_seq(l, "Volume Name:"@) {
        None
    } else if exists|k: int| last_at(l, ":"@, k) {
        let v = trimmed(l.subrange((choose|k: int| last_at(l, ":"@, k)) + 1, l.len() as int));
        if v.len() > 0 && v != NO_FILE_SYSTEM@ {
            Some(v)
        } else {
            None
        }
    } else {
        None
    }
}

/// The first usable volume name the lines report.
pub open spec fn first_volume(ls: Seq<Seq<char>>) -> Option<Seq<char>>
    decreases ls.len(),
{
    if ls.len() == 0 {
        None
    } else {
        match first_volume(ls.drop_last()) {
            Some(v) => Some(v),
            None => volume_of_line(ls.last()),
        }
    }
}

fn line_volume(l: &str) -> (r: Option<String>)
    ensures
        match r {
            Some(v) => volume_of_line(l@) == Some(v@),
            None => volume_of_line(l@) is None,
        },
{
    if !contains_text(l, "Volume Name:") {
        return None;
    }
    let n = l.unicode_len();
    match find_last(l, ":") {
        Some(k) => {
            proof {
                assert forall|x: int| last_at(l@, ":"@, x) implies x == k by {
                    lemma_last_at_unique(l@, ":"@, x, k as int);
                }
            }
            assert(last_at(l@, ":"@, k as int));
            proof {
                reveal_strlit(":");
            }
            assert(k + 1 <= n);
            let v = trim_text(l.substring_char(k + 1, n));
            if v.unicode_len() > 0 && !same_text(v, NO_FILE_SYSTEM) {
                Some(String::from_str(v))
            } else {
                None
            }
        },
        None => {
            assert(!exists|x: int| last_at(l@, ":"@, x));
            None
        },
    }
}

proof fn lemma_first_volume_prefix(ls: Seq<Seq<char>>, k: int)
    requires
        0 <= k <= ls.len(),
        first_volume(ls.subrange(0, k)) is Some,
    ensures
        first_volume(ls) == first_volume(ls.subrange(0, k)),
    decreases ls.len() - k,
{
    if k == ls.len() {
        assert(ls.subrange(0, k) =~= ls);
    } else {
        assert(ls.subrange(0, k + 1).drop_last() =~= ls.subrange(0, k));
        lemma_first_volume_prefix(ls, k + 1);
    }
}

/// The volume name of a partition, from the disk tool's information output.
pub fn volume_name_from_info(info: &str) -> (r: Option<String>)
    ensures
        match r {
            Some(v) => first_volume(lines_of(info@)) == Some(v@),
            None => first_volume(lines_of(info@)) is None,
        },
{
    let lines = split_lines(info);
    let ghost ls = lines@.map_values(|l: String| l@);
    assert(ls =~= lines_of(info@));
    let mut i: usize = 0;
    while i < lines.len()
        invariant
            i <= lines@.len(),
            ls == lines@.map_values(|l: String| l@),
            ls == lines_of(info@),
            first_volume(ls.subrange(0, i as int)) is None,
        decreases lines@.len() - i,
    {
        let ghost pre = ls.subrange(0, i + 1);
        assert(pre.drop_last() =~= ls.subrange(0, i as int));
        assert(pre.last() == lines@[i as int]@);
        let v = line_volume(lines[i].as_str());
        assert(first_volume(pre) == match v {
            Some(x) => Some(x@),
            None => None::<Seq<char>>,
        });
        if v.is_some() {
            proof {
                lemma_first_volume_prefix(ls, i + 1);
            }
            return v;
        }
        i = i + 1;
    }
    assert(ls.subrange(0, i as int) =~= ls);
    None
}

/// The name shown for a medium: its volume name with the disk, or the disk
/// alone.
pub open spec fn display_name_spec(volume: Option<Seq<char>>, id: Seq<char>) -> Seq<char> {
    match volume {
        Some(v) => v + " ("@ + id + ")"@,
        None => id + " - Carte SD"@,
    }
}

/// The candidate medium a disk stands for, when its size is in the
/// flashable window.
pub open spec fn card_of(id: Seq<char>, size: Option<u64>, volume: Option<Seq<char>>) -> Option<(Seq<char>, Seq<char>, u64)> {
    let sz = match size {
        Some(v) => v,
        None => 0u64,
    };
    if size_in_window(sz) {
        Some(("/dev/r"@ + id, display_name_spec(volume, id), sz))
    } else {
        None
    }
}

/// Builds the candidate medium of a disk from the disk tool's information
/// on the disk and on its first partition.
pub fn sd_card_from_info(disk_id: &str, disk_info: &str, partition_info: &str) -> (r: Option<SDCard>)
    ensures
        match r {
            Some(c) => card_of(disk_id@, first_size(lines_of(disk_info@)), first_volume(lines_of(partition_info@)))
                == Some((c.path@, c.name@, c.size)) && c.removable,
            None => card_of(disk_id@, first_size(lines_of(disk_info@)), first_volume(lines_of(partition_info@))) is None,
        },
{
    let size = match disk_size_from_info(disk_info) {
        Some(v) => v,
        None => 0,
    };
    if size < MIN_SD_SIZE_BYTES || size > MAX_SD_SIZE_BYTES {
        return None;
    }
    let volume = volume_name_from_info(partition_info);
    let name = match volume {
        Some(v) => {
            let mut n = v;
            push_text(&mut n, " (");
            push_text(&mut n, disk_id);
            push_text(&mut n, ")");
            n
        },
        None => {
            let mut n = String::from_str(disk_id);
            push_text(&mut n, " - Carte SD");
            n
        },
    };
    let mut path = String::from_str("/dev/r");
    push_text(&mut path, disk_id);
    Some(SDCard { path, name, size, removable: true })
}

} // verus!
