//! Choosing the image to flash from the image index: the index page lists
//! one folder per release, `raspios_lite_arm64-YYYY-MM-DD/`; the newest
//! date wins, and the folder's page names the compressed image file.

use vstd::prelude::*;
use crate::pattern::{captures_of, captures_view, opt_string_view, regex_captures};
use crate::text::{contains_seq, contains_text, less_text, push_text, strip_trailing, text_less, trim_trailing};

verus! {

/// Address of the image index.
pub const RPI_OS_INDEX_URL: &'static str = "https://downloads.raspberrypi.com/raspios_lite_arm64/images/";

/// A release folder link; group 1 is the folder, group 2 its date.
pub const RELEASE_PATTERN: &'static str = r#"href="(raspios_lite_arm64-(\d{4}-\d{2}-\d{2})/)""#;

/// A compressed image link; group 1 is the file name.
pub const IMAGE_FILE_PATTERN: &'static str = r#"href="([^"]+\.img\.xz)""#;

/// Group `g` of a match, empty when absent.
pub open spec fn group(row: Seq<Option<Seq<char>>>, g: int) -> Seq<char> {
    if 0 <= g < row.len() && row[g] is Some {
        row[g]->0
    } else {
        Seq::empty()
    }
}

/// `k` is the newest release among `rows`: no date is later, and every
/// earlier row has an earlier date (the first of equal dates wins).
pub open spec fn is_newest(rows: Seq<Seq<Option<Seq<char>>>>, k: int) -> bool {
    &&& 0 <= k < rows.len()
    &&& forall|j: int| 0 <= j < rows.len() ==> !text_less(group(rows[k], 2), #[trigger] group(rows[j], 2))
    &&& forall|j: int| 0 <= j < k ==> text_less(#[trigger] group(rows[j], 2), group(rows[k], 2))
}

/// Some release is the newest.
pub open spec fn has_newest(rows: Seq<Seq<Option<Seq<char>>>>) -> bool {
    exists|k: int| is_newest(rows, k)
}

/// The position of the newest release, where there is one.
pub open spec fn newest_index(rows: Seq<Seq<Option<Seq<char>>>>) -> int {
    choose|k: int| is_newest(rows, k)
}

/// The newest release of an index page: (folder, date).
pub open spec fn newest_release(page: Seq<char>) -> Option<(Seq<char>, Seq<char>)> {
    match regex_captures(RELEASE_PATTERN@, page) {
        Some(rows) => if has_newest(rows) {
            Some((group(rows[newest_index(rows)], 1), group(rows[newest_index(rows)], 2)))
        } else {
            None
        },
        None => None,
    }
}

/// The first image file named on a folder page.
pub open spec fn first_image(page: Seq<char>) -> Option<Seq<char>> {
    match regex_captures(IMAGE_FILE_PATTERN@, page) {
        Some(rows) => if rows.len() > 0 {
            Some(group(rows[0], 1))
        } else {
            None
        },
        None => None,
    }
}

proof fn lemma_text_less_total(a: Seq<char>, b: Seq<char>)
    ensures
        a != b ==> (text_less(a, b) || text_less(b, a)),
        !(text_less(a, b) && text_less(b, a)),
        !text_less(a, a),
    decreases a.len(),
{
    lemma_text_less_irrefl(a);
    if a.len() > 0 && b.len() > 0 && a[0] == b[0] {
        lemma_text_less_total(a.drop_first(), b.drop_first());
        if a != b {
            assert(a =~= seq![a[0]] + a.drop_first());
            assert(b =~= seq![b[0]] + b.drop_first());
        }
    } else if a.len() == 0 && b.len() == 0 {
        assert(a =~= b);
    }
}

proof fn lemma_text_less_irrefl(a: Seq<char>)
    ensures
        !text_less(a, a),
    decreases a.len(),
{
    if a.len() > 0 {
        lemma_text_less_irrefl(a.drop_first());
    }
}

proof fn lemma_text_less_trans(a: Seq<char>, b: Seq<char>, c: Seq<char>)
    requires
        text_less(a, b),
        text_less(b, c),
    ensures
        text_less(a, c),
    decreases a.len(),
{
    if a.len() > 0 && b.len() > 0 && c.len() > 0 && a[0] == b[0] && b[0] == c[0] {
        lemma_text_less_trans(a.drop_first(), b.drop_first(), c.drop_first());
    }
}

proof fn lemma_newest_unique(rows: Seq<Seq<Option<Seq<char>>>>, a: int, b: int)
    requires
        is_newest(rows, a),
        is_newest(rows, b),
    ensures
        a == b,
{
    if a < b {
        assert(text_less(group(rows[a], 2), group(rows[b], 2)));
    } else if b < a {
        assert(text_less(group(rows[b], 2), group(rows[a], 2)));
    }
}

fn group_text(row: &Vec<Option<String>>, g: usize) -> (r: String)
    ensures
        r@ == group(row@.map_values(|x: Option<String>| opt_string_view(x)), g as int),
{
    if g < row.len() {
        match &row[g] {
            Some(s) => String::from_str(s.as_str()),
            None => String::new(),
        }
    } else {
        String::new()
    }
}

/// Index of the newest release among matched folder links.
pub fn pick_newest(rows: &Vec<Vec<Option<String>>>) -> (r: Option<usize>)
    ensures
        r matches Some(k) ==> is_newest(captures_view(rows@), k as int),
        r is None ==> rows@.len() == 0,
{
    let ghost cv = captures_view(rows@);
    if rows.len() == 0 {
        return None;
    }
    let mut best: usize = 0;
    let mut best_date = group_text(&rows[0], 2);
    let mut i: usize = 1;
    assert(rows@[0]@.map_values(|x: Option<String>| opt_string_view(x)) == cv[0]);
    proof {
        lemma_text_less_total(group(cv[0], 2), group(cv[0], 2));
    }
    while i < rows.len()
        invariant
            cv == captures_view(rows@),
            0 <= best < i <= rows@.len(),
            best_date@ == group(cv[best as int], 2),
            forall|j: int| 0 <= j < i ==> !text_less(group(cv[best as int], 2), #[trigger] group(cv[j], 2)),
            forall|j: int| 0 <= j < best ==> text_less(#[trigger] group(cv[j], 2), group(cv[best as int], 2)),
        decreases rows@.len() - i,
    {
        let d = group_text(&rows[i], 2);
        assert(rows@[i as int]@.map_values(|x: Option<String>| opt_string_view(x)) == cv[i as int]);
        if less_text(best_date.as_str(), d.as_str()) {
            proof {
                assert forall|j: int| 0 <= j < i + 1 implies !text_less(group(cv[i as int], 2), #[trigger] group(cv[j], 2)) by {
                    if j < i {
                        lemma_text_less_total(group(cv[best as int], 2), group(cv[j], 2));
                        if text_less(group(cv[i as int], 2), group(cv[j], 2)) {
                            lemma_text_less_trans(group(cv[best as int], 2), group(cv[i as int], 2), group(cv[j], 2));
                        }
                    } else {
                        lemma_text_less_total(group(cv[i as int], 2), group(cv[i as int], 2));
                    }
                }
                assert forall|j: int| 0 <= j < i implies text_less(#[trigger] group(cv[j], 2), group(cv[i as int], 2)) by {
                    lemma_text_less_total(group(cv[j], 2), group(cv[best as int], 2));
                    if j < best {
                        lemma_text_less_trans(group(cv[j], 2), group(cv[best as int], 2), group(cv[i as int], 2));
                    } else if group(cv[j], 2) != group(cv[best as int], 2) {
                        lemma_text_less_trans(group(cv[j], 2), group(cv[best as int], 2), group(cv[i as int], 2));
                    }
                }
            }
            best = i;
            best_date = d;
        }
        i = i + 1;
    }
    Some(best)
}

/// The newest release folder of the index page, with its date.
pub fn latest_release(index_page: &str) -> (r: Option<(String, String)>)
    ensures
        match r {
            Some(fd) => newest_release(index_page@) == Some((fd.0@, fd.1@)),
            None => newest_release(index_page@) is None,
        },
{
    match captures_of(RELEASE_PATTERN, index_page) {
        Some(rows) => {
            let ghost cv = captures_view(rows@);
            match pick_newest(&rows) {
                Some(k) => {
                    assert(is_newest(cv, k as int));
                    proof {
                        assert forall|x: int| is_newest(cv, x) implies x == k by {
                            lemma_newest_unique(cv, x, k as int);
                        }
                    }
                    assert(rows@[k as int]@.map_values(|x: Option<String>| opt_string_view(x)) == cv[k as int]);
                    let f = group_text(&rows[k], 1);
                    let d = group_text(&rows[k], 2);
                    assert(has_newest(cv));
                    assert(newest_index(cv) == k);
                    Some((f, d))
                },
                None => None,
            }
        },
        None => None,
    }
}

/// The first compressed image file named on a release folder's page.
pub fn image_file(folder_page: &str) -> (r: Option<String>)
    ensures
        match r {
            Some(f) => first_image(folder_page@) == Some(f@),
            None => first_image(folder_page@) is None,
        },
{
    match captures_of(IMAGE_FILE_PATTERN, folder_page) {
        Some(rows) => {
            if rows.len() > 0 {
                assert(rows@[0]@.map_values(|x: Option<String>| opt_string_view(x)) == captures_view(rows@)[0]);
                Some(group_text(&rows[0], 1))
            } else {
                None
            }
        },
        None => None,
    }
}

/// The download address of an image and the name of its extracted form.
pub open spec fn image_source_spec(index_url: Seq<char>, folder: Seq<char>, file: Seq<char>) -> (Seq<char>, Seq<char>) {
    (index_url + folder + file, strip_trailing(file, ".xz"@))
}

/// The download address (index + folder + file) and the extracted name (the
/// file without its `.xz` suffix).
pub fn image_source(index_url: &str, folder: &str, file: &str) -> (r: (String, String))
    ensures
        (r.0@, r.1@) == image_source_spec(index_url@, folder@, file@),
{
    let mut url = String::from_str(index_url);
    push_text(&mut url, folder);
    push_text(&mut url, file);
    let name = String::from_str(trim_trailing(file, ".xz"));
    (url, name)
}

/// Release tag an image file must carry (the first-boot files target it).
pub const REQUIRED_RELEASE: &'static str = "bookworm";

/// Release tag an image file must not carry.
pub const EXCLUDED_RELEASE: &'static str = "trixie";

/// A file name carries the required tag and not the excluded one (an empty
/// excluded tag excludes nothing).
pub open spec fn release_matches(name: Seq<char>, required: Seq<char>, excluded: Seq<char>) -> bool {
    contains_seq(name, required) && !(excluded.len() > 0 && contains_seq(name, excluded))
}

/// `k` is the first matched image file that carries the right tags.
pub open spec fn first_matching(rows: Seq<Seq<Option<Seq<char>>>>, required: Seq<char>, excluded: Seq<char>, k: int) -> bool {
    0 <= k < rows.len() && release_matches(group(rows[k], 1), required, excluded) && forall|j: int|
        0 <= j < k ==> !release_matches(#[trigger] group(rows[j], 1), required, excluded)
}

/// The first image file of a folder page that carries the required release
/// tag and not the excluded one.
pub open spec fn matching_image(page: Seq<char>, required: Seq<char>, excluded: Seq<char>) -> Option<Seq<char>> {
    match regex_captures(IMAGE_FILE_PATTERN@, page) {
        Some(rows) => if has_matching(rows, required, excluded) {
            Some(group(rows[matching_index(rows, required, excluded)], 1))
        } else {
            None
        },
        None => None,
    }
}

/// Some image file carries the right tags.
pub open spec fn has_matching(rows: Seq<Seq<Option<Seq<char>>>>, required: Seq<char>, excluded: Seq<char>) -> bool {
    exists|k: int| first_matching(rows, required, excluded, k)
}

/// The position of the first image file with the right tags.
pub open spec fn matching_index(rows: Seq<Seq<Option<Seq<char>>>>, required: Seq<char>, excluded: Seq<char>) -> int {
    choose|k: int| first_matching(rows, required, excluded, k)
}

/// The first image file of a release folder's page that carries the
/// required release tag and not the excluded one.
pub fn image_file_matching(folder_page: &str, required: &str, excluded: &str) -> (r: Option<String>)
    ensures
        match r {
            Some(f) => matching_image(folder_page@, required@, excluded@) == Some(f@),
            None => matching_image(folder_page@, required@, excluded@) is None,
        },
{
    match captures_of(IMAGE_FILE_PATTERN, folder_page) {
        Some(rows) => {
            let ghost cv = captures_view(rows@);
            let mut i: usize = 0;
            while i < rows.len()
                invariant
                    cv == captures_view(rows@),
                    regex_captures(IMAGE_FILE_PATTERN@, folder_page@) == Some(cv),
                    i <= rows@.len(),
                    forall|j: int| 0 <= j < i ==> !release_matches(#[trigger] group(cv[j], 1), required@, excluded@),
                decreases rows@.len() - i,
            {
                assert(rows@[i as int]@.map_values(|x: Option<String>| opt_string_view(x)) == cv[i as int]);
                let name = group_text(&rows[i], 1);
                let ok = contains_text(name.as_str(), required) && !(excluded.unicode_len() > 0
                    && contains_text(name.as_str(), excluded));
                if ok {
                    proof {
                        assert(first_matching(cv, required@, excluded@, i as int));
                        assert forall|x: int| first_matching(cv, required@, excluded@, x) implies x == i by {
                            if x < i {
                                assert(!release_matches(group(cv[x], 1), required@, excluded@));
                            } else if x > i {
                                assert(!release_matches(group(cv[i as int], 1), required@, excluded@));
                            }
                        }
                    }
                    assert(has_matching(cv, required@, excluded@));
                    assert(matching_index(cv, required@, excluded@) == i);
                    return Some(name);
                }
                i = i + 1;
            }
            assert(!has_matching(cv, required@, excluded@));
            None
        },
        None => None,
    }
}

} // verus!
