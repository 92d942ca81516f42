use vstd::prelude::*;

verus! {

/// The status word of a download.
pub const DOWNLOAD_STR: &'static str = "Downloading";

/// The status word of an upload.
pub const UPLOAD_STR: &'static str = "Uploading";

/// The title of a progress gauge: ` <status>: <file name> ... `.
pub fn create_title_with_filename(filename: &String, status: &String) -> (title: String)
    ensures
        title@ == " "@ + status@ + ": "@ + filename@ + " ... "@,
{
    let mut t = String::from_str(" ");
    t.append(status.as_str());
    t.append(": ");
    t.append(filename.as_str());
    t.append(" ... ");
    t
}

/// Whether `needle` occurs in `hay` at position `i`.
pub open spec fn occurs_at(hay: Seq<char>, needle: Seq<char>, i: int) -> bool {
    0 <= i && i + needle.len() <= hay.len() && hay.subrange(i, i + needle.len()) == needle
}

/// Whether `needle` occurs in `hay`.
pub open spec fn spec_contains(hay: Seq<char>, needle: Seq<char>) -> bool {
    exists|i: int| occurs_at(hay, needle, i)
}

/// Whether `needle` occurs in `hay` (as `str::contains` finds it).
pub fn contains_text(hay: &str, needle: &str) -> (found: bool)
    ensures
        found == spec_contains(hay@, needle@),
{
    let n = hay.unicode_len();
    let m = needle.unicode_len();
    if m > n {
        proof {
            assert forall|i: int| !occurs_at(hay@, needle@, i) by {}
        }
        return false;
    }
    let mut i: usize = 0;
    while i <= n - m
        invariant
            n == hay@.len(),
            m == needle@.len(),
            m <= n,
            0 <= i <= n - m + 1,
            forall|k: int| 0 <= k < i ==> !occurs_at(hay@, needle@, k),
        decreases n - m + 1 - i,
    {
        let mut j: usize = 0;
        let mut same = true;
        while j < m
            invariant
                n == hay@.len(),
                m == needle@.len(),
                i + m <= n,
                0 <= j <= m,
                same == (forall|k: int| 0 <= k < j ==> hay@[i + k] == needle@[k]),
            decreases m - j,
        {
            if hay.get_char(i + j) != needle.get_char(j) {
                same = false;
            }
            j = j + 1;
        }
        if same {
            assert(hay@.subrange(i as int, i + m) =~= needle@);
            assert(occurs_at(hay@, needle@, i as int));
            return true;
        }
        proof {
            if occurs_at(hay@, needle@, i as int) {
                assert forall|k: int| 0 <= k < m implies hay@[i + k] == needle@[k] by {
                    assert(hay@.subrange(i as int, i + m)[k] == hay@[i + k]);
                }
            }
        }
        i = i + 1;
    }
    proof {
        assert forall|k: int| !occurs_at(hay@, needle@, k) by {
            if 0 <= k < i {
            }
        }
    }
    false
}

/// Which colour a gauge takes.
#[derive(Clone, Copy, Debug, PartialEq, Eq, Structural)]
pub enum GaugeAccent {
    Download,
    Upload,
}

/// The accent of a gauge: the download colour when its title mentions
/// `DOWNLOAD_STR`, the upload colour otherwise.
pub fn gauge_accent(title: &str) -> (a: GaugeAccent)
    ensures
        a == if spec_contains(title@, DOWNLOAD_STR@) {
            GaugeAccent::Download
        } else {
            GaugeAccent::Upload
        },
{
    if contains_text(title, DOWNLOAD_STR) {
        GaugeAccent::Download
    } else {
        GaugeAccent::Upload
    }
}

/// Whether the gauge is drawn for a (rounded) percentage: below 100.
pub fn gauge_visible(percent: u16) -> (v: bool)
    ensures
        v == (percent < 100),
{
    percent < 100
}

} // verus!
