//! Attached devices: the listing that `idevice_id -l` prints, the one-line
//! summary of a device, and the choice of the device to use.

use vstd::prelude::*;
use vstd::slice::{slice_subrange, slice_to_vec};

use crate::text::{
    chars_equal, chars_less, chars_lt, chars_of, is_white_space, is_whitespace, lemma_chars_lt_irreflexive,
    lemma_chars_lt_total, lemma_chars_lt_transitive, split_char,
    split_chars, string_from_chars, trim_start,
};

verus! {

/// An attached iPhone, with what `ideviceinfo` says of it.
#[derive(Debug, Clone)]
pub struct Device {
    pub udid: String,
    pub name: String,
    pub product_type: String,
    pub ios_version: String,
}

/// The one-line summary of `d`: UDID, model, iOS version and quoted name.
pub open spec fn summary_of(d: Device) -> Seq<char> {
    d.udid@ + "  "@ + d.product_type@ + "  (iOS "@ + d.ios_version@ + ")  \""@ + d.name@ + "\""@
}

impl Device {
    /// One-line summary used by `--list`.
    pub fn summary(&self) -> (r: String)
        ensures
            r@ == summary_of(*self),
    {
        let mut s = String::new();
        s.append(self.udid.as_str());
        s.append("  ");
        s.append(self.product_type.as_str());
        s.append("  (iOS ");
        s.append(self.ios_version.as_str());
        s.append(")  \"");
        s.append(self.name.as_str());
        s.append("\"");
        s
    }
}

/// The characters of `s` up to its first white space.
pub open spec fn leading_token(s: Seq<char>) -> Seq<char>
    decreases s.len(),
{
    if s.len() == 0 || is_white_space(s[0]) {
        Seq::empty()
    } else {
        seq![s[0]] + leading_token(s.subrange(1, s.len() as int))
    }
}

/// The first white-space separated word of a line (`split_whitespace().next()`),
/// empty when the line is blank.
pub open spec fn first_word(line: Seq<char>) -> Seq<char> {
    leading_token(trim_start(line))
}

/// The output `raw` of `idevice_id -l` lists `udid`: some line's first word is
/// `udid`, which is not empty.
pub open spec fn lists_udid(raw: Seq<char>, udid: Seq<char>) -> bool {
    udid.len() > 0 && exists|k: int|
        0 <= k < split_char(raw, '\n').len() && #[trigger] first_word(split_char(raw, '\n')[k])
            == udid
}

/// Strictly increasing in the order of `String`: sorted, and no duplicates.
pub open spec fn strictly_sorted(s: Seq<Seq<char>>) -> bool {
    forall|i: int, j: int| 0 <= i < j < s.len() ==> chars_lt(#[trigger] s[i], #[trigger] s[j])
}

/// The first word of `line`.
fn first_word_chars(line: &[char]) -> (r: Vec<char>)
    ensures
        r@ == first_word(line@),
{
    let n = line.len();
    let mut i: usize = 0;
    assert(line@.subrange(0, n as int) =~= line@);
    while i < n && is_whitespace(line[i])
        invariant
            n == line@.len(),
            i <= n,
            trim_start(line@) == trim_start(line@.subrange(i as int, n as int)),
        decreases n - i,
    {
        assert(line@.subrange(i as int, n as int).subrange(1, n - i) =~= line@.subrange(i + 1, n as int));
        i = i + 1;
    }
    let mut j: usize = i;
    while j < n && !is_whitespace(line[j])
        invariant
            n == line@.len(),
            i <= j <= n,
            trim_start(line@) == line@.subrange(i as int, n as int),
            leading_token(line@.subrange(i as int, n as int)) == line@.subrange(i as int, j as int)
                + leading_token(line@.subrange(j as int, n as int)),
        decreases n - j,
    {
        assert(line@.subrange(j as int, n as int).subrange(1, n - j) =~= line@.subrange(j + 1, n as int));
        assert(line@.subrange(i as int, j + 1) =~= line@.subrange(i as int, j as int) + seq![line@[j as int]]);
        j = j + 1;
    }
    assert(line@.subrange(i as int, j as int) + leading_token(line@.subrange(j as int, n as int))
        =~= line@.subrange(i as int, j as int));
    slice_to_vec(slice_subrange(line, i, j))
}

/// The characters of each string of a list.
pub open spec fn string_views(v: Seq<String>) -> Seq<Seq<char>> {
    v.map_values(|s: String| s@)
}

/// The views of a list of words.
pub open spec fn words(v: Seq<Vec<char>>) -> Seq<Seq<char>> {
    v.map_values(|w: Vec<char>| w@)
}

/// Adds `t` to the sorted list `set`, unless it is already there.
fn insert_sorted(set: &mut Vec<Vec<char>>, t: Vec<char>)
    requires
        strictly_sorted(words(old(set)@)),
    ensures
        strictly_sorted(words(final(set)@)),
        forall|w: Seq<char>| #[trigger] words(final(set)@).contains(w) <==> (words(old(set)@).contains(w) || w == t@),
{
    let ghost old_words = words(set@);
    let n = set.len();
    let mut k: usize = 0;
    while k < n && chars_less(set[k].as_slice(), t.as_slice())
        invariant
            n == set@.len(),
            k <= n,
            old_words == words(set@),
            strictly_sorted(old_words),
            forall|i: int| 0 <= i < k ==> chars_lt(#[trigger] old_words[i], t@),
        decreases n - k,
    {
        k = k + 1;
    }
    if k < n && chars_equal(set[k].as_slice(), t.as_slice()) {
        assert(old_words[k as int] == t@);
        return;
    }
    proof {
        if k < n {
            lemma_chars_lt_total(old_words[k as int], t@);
        }
        assert forall|j: int| k <= j < n implies chars_lt(t@, #[trigger] old_words[j]) by {
            if j > k {
                lemma_chars_lt_transitive(t@, old_words[k as int], old_words[j]);
            }
        }
    }
    set.insert(k, t);
    let ghost new_words = words(set@);
    assert(new_words =~= old_words.insert(k as int, t@));
    assert forall|i: int, j: int| 0 <= i < j < new_words.len() implies chars_lt(
        #[trigger] new_words[i],
        #[trigger] new_words[j],
    ) by {
        if j < k {
        } else if j == k {
        } else if i < k {
            lemma_chars_lt_transitive(new_words[i], t@, new_words[j]);
        } else if i == k {
        } else {
            assert(new_words[i] == old_words[i - 1] && new_words[j] == old_words[j - 1]);
        }
    }
    assert forall|w: Seq<char>| #[trigger] new_words.contains(w) <==> (old_words.contains(w) || w
        == t@) by {
        if new_words.contains(w) {
            let i = choose|i: int| 0 <= i < new_words.len() && new_words[i] == w;
            if i < k {
                assert(old_words[i] == w);
            } else if i > k {
                assert(old_words[i - 1] == w);
            }
        }
        if old_words.contains(w) {
            let i = choose|i: int| 0 <= i < old_words.len() && old_words[i] == w;
            if i < k {
                assert(new_words[i] == w);
            } else {
                assert(new_words[i + 1] == w);
            }
        }
        if w == t@ {
            assert(new_words[k as int] == w);
        }
    }
}

/// The UDIDs in the output of `idevice_id -l`: the first word of each line,
/// deduped (a device shows up once over USB and once over the network) and
/// in the order of `String`.
pub fn parse_udids(raw: &str) -> (r: Vec<String>)
    ensures
        strictly_sorted(string_views(r@)),
        forall|u: Seq<char>| #[trigger] string_views(r@).contains(u) <==> lists_udid(raw@, u),
{
    let chars = chars_of(raw);
    let lines = split_chars(chars.as_slice(), '\n');
    let ghost spec_lines = split_char(raw@, '\n');
    let mut set: Vec<Vec<char>> = Vec::new();
    let n = lines.len();
    for i in 0..n
        invariant
            n == lines@.len(),
            n == spec_lines.len(),
            spec_lines == split_char(raw@, '\n'),
            forall|k: int| 0 <= k < n ==> #[trigger] lines@[k]@ == spec_lines[k],
            strictly_sorted(words(set@)),
            forall|w: Seq<char>| #[trigger] words(set@).contains(w) <==> (w.len() > 0 && exists|k: int|
                0 <= k < i && #[trigger] first_word(spec_lines[k]) == w),
    {
        let word = first_word_chars(lines[i].as_slice());
        let ghost before = words(set@);
        if word.len() > 0 {
            insert_sorted(&mut set, word);
        }
        assert forall|w: Seq<char>| #[trigger] words(set@).contains(w) <==> (w.len() > 0 && exists|k: int|
            0 <= k < i + 1 && #[trigger] first_word(spec_lines[k]) == w) by {
            if w.len() > 0 && first_word(spec_lines[i as int]) == w {
                assert(words(set@).contains(w));
            }
            if w.len() > 0 && (exists|k: int| 0 <= k < i + 1 && #[trigger] first_word(spec_lines[k]) == w) {
                let k = choose|k: int| 0 <= k < i + 1 && #[trigger] first_word(spec_lines[k]) == w;
                if k < i {
                    assert(before.contains(w));
                }
            }
        }
    }
    let mut out: Vec<String> = Vec::new();
    let m = set.len();
    for i in 0..m
        invariant
            m == set@.len(),
            string_views(out@) == words(set@).subrange(0, i as int),
    {
        let ghost prev = out@;
        let s = string_from_chars(set[i].as_slice());
        out.push(s);
        assert(out@ == prev.push(s));
        assert(string_views(out@) =~= string_views(prev).push(s@));
        assert(string_views(out@) =~= words(set@).subrange(0, i + 1));
    }
    assert(words(set@).subrange(0, m as int) =~= words(set@));
    assert forall|u: Seq<char>| #[trigger] string_views(out@).contains(u) <==> lists_udid(raw@, u) by {
        assert(words(set@).contains(u) <==> lists_udid(raw@, u));
    }
    out
}


/// Why no device could be picked.
#[derive(Debug, Clone)]
pub enum SelectError {
    /// No attached device has the requested UDID.
    NotFound(String),
    /// Nothing is attached.
    NoDevice,
    /// Several devices are attached and none was requested; the listing of
    /// them, one indented summary per line.
    Ambiguous(String),
}

/// The listing of several devices: one indented summary per line.
pub open spec fn listing_of(ds: Seq<Device>) -> Seq<char>
    decreases ds.len(),
{
    if ds.len() == 0 {
        Seq::empty()
    } else if ds.len() == 1 {
        "  "@ + summary_of(ds[0])
    } else {
        listing_of(ds.drop_last()) + "\n"@ + "  "@ + summary_of(ds.last())
    }
}

/// One indented summary per line.
pub fn device_listing(ds: &Vec<Device>) -> (r: String)
    ensures
        r@ == listing_of(ds@),
{
    let mut out = String::new();
    let n = ds.len();
    for i in 0..n
        invariant
            n == ds@.len(),
            out@ == listing_of(ds@.subrange(0, i as int)),
    {
        let sum = ds[i].summary();
        assert(ds@.subrange(0, i + 1).drop_last() =~= ds@.subrange(0, i as int));
        if i != 0 {
            out.append("\n");
        }
        out.append("  ");
        out.append(sum.as_str());
    }
    assert(ds@.subrange(0, n as int) =~= ds@);
    out
}

/// Picks the device to use. Honors an explicit UDID, auto-picks when there is
/// only one, otherwise refuses and lists the choices.
pub fn select_device(devices: Vec<Device>, requested: Option<&str>) -> (r: Result<Device, SelectError>)
    ensures
        requested matches Some(want) ==> match r {
            Ok(d) => exists|i: int|
                0 <= i < devices@.len() && d == devices@[i] && d.udid@ == want@ && forall|j: int|
                    0 <= j < i ==> (#[trigger] devices@[j]).udid@ != want@,
            Err(e) => (forall|i: int| 0 <= i < devices@.len() ==> (#[trigger] devices@[i]).udid@
                != want@) && (e matches SelectError::NotFound(w) && w@ == want@),
        },
        requested is None ==> match r {
            Ok(d) => devices@.len() == 1 && d == devices@[0],
            Err(e) => (devices@.len() == 0 && e is NoDevice) || (devices@.len() > 1
                && (e matches SelectError::Ambiguous(list) && list@ == listing_of(devices@))),
        },
{
    let ghost orig = devices@;
    let mut pool = devices;
    match requested {
        Some(want) => {
            let want_chars = chars_of(want);
            let n = pool.len();
            for i in 0..n
                invariant
                    n == pool@.len(),
                    pool@ == orig,
                    orig == devices@,
                    requested == Some(want),
                    want_chars@ == want@,
                    forall|j: int| 0 <= j < i ==> (#[trigger] orig[j]).udid@ != want@,
            {
                let udid_chars = chars_of(pool[i].udid.as_str());
                if chars_equal(udid_chars.as_slice(), want_chars.as_slice()) {
                    let d = pool.remove(i);
                    assert(d == orig[i as int] && d.udid@ == want@);
                    assert(0 <= i < devices@.len() && d == devices@[i as int]);
                    return Ok(d);
                }
            }
            Err(SelectError::NotFound(string_from_chars(want_chars.as_slice())))
        },
        None => {
            if pool.len() == 0 {
                Err(SelectError::NoDevice)
            } else if pool.len() == 1 {
                let d = pool.remove(0);
                assert(d == orig[0]);
                Ok(d)
            } else {
                Err(SelectError::Ambiguous(device_listing(&pool)))
            }
        },
    }
}

/// What a selection error tells the user.
pub open spec fn select_message_of(e: SelectError) -> Seq<char> {
    match e {
        SelectError::NotFound(want) => "no iPhone with UDID "@ + want@ + " is plugged in"@,
        SelectError::NoDevice =>
            "no iPhone found over USB. Plug in your jailbroken iPhone, unlock it, and tap Trust if it asks."@,
        SelectError::Ambiguous(list) =>
            "more than one iPhone is plugged in. Pick the one you want with --device <UDID>:\n"@
                + list@,
    }
}

impl SelectError {
    /// The message shown to the user.
    pub fn message(&self) -> (r: String)
        ensures
            r@ == select_message_of(*self),
    {
        let mut s = String::new();
        match self {
            SelectError::NotFound(want) => {
                s.append("no iPhone with UDID ");
                s.append(want.as_str());
                s.append(" is plugged in");
            },
            SelectError::NoDevice => {
                s.append(
                    "no iPhone found over USB. Plug in your jailbroken iPhone, unlock it, and tap Trust if it asks.",
                );
            },
            SelectError::Ambiguous(list) => {
                s.append(
                    "more than one iPhone is plugged in. Pick the one you want with --device <UDID>:\n",
                );
                s.append(list.as_str());
            },
        }
        s
    }
}

/// A strictly sorted list, like the one [`parse_udids`] returns, names each
/// device once.
pub proof fn lemma_sorted_udids_distinct(s: Seq<Seq<char>>, i: int, j: int)
    requires
        strictly_sorted(s),
        0 <= i < s.len(),
        0 <= j < s.len(),
        i != j,
    ensures
        s[i] != s[j],
{
    if s[i] == s[j] {
        lemma_chars_lt_irreflexive(s[i]);
        if i < j {
            assert(chars_lt(s[i], s[j]));
        } else {
            assert(chars_lt(s[j], s[i]));
        }
    }
}
} // verus!
