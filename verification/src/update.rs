//! Best-effort check for a newer ioscpy: version comparison, the notices that
//! are printed, and the small cache file that remembers the latest release.

use vstd::prelude::*;

use crate::text::{
    all_digits, chars_of, decimal, is_white_space, parse_u64, parse_u64_chars, push_decimal,
    split_char, split_chars, string_from_chars, strip_leading, strip_leading_chars, trim,
    trim_chars, lemma_split_char_nonempty,
};

verus! {

/// How old the cached release version may get before it is fetched again.
pub const REFRESH_SECS: u64 = 24 * 60 * 60;

/// The characters of an optional string.
pub open spec fn opt_chars(o: Option<String>) -> Option<Seq<char>> {
    match o {
        Some(s) => Some(s@),
        None => None,
    }
}

/// The part of a version string that holds the numbers: trimmed, and without
/// the leading `v`s.
pub open spec fn version_digits(s: Seq<char>) -> Seq<char> {
    strip_leading(trim(s), 'v')
}

/// A dotted field read as a number, 0 where it is missing or not a number.
pub open spec fn field_or_zero(parts: Seq<Seq<char>>, k: int) -> u64 {
    if k < parts.len() {
        match parse_u64(parts[k]) {
            Some(n) => n,
            None => 0,
        }
    } else {
        0
    }
}

/// "a.b.c" (with optional leading `v`s) as comparable numbers. The major
/// number must be there; a missing or unreadable minor or patch number counts
/// as 0, and anything after the third dot is ignored.
pub open spec fn version_of(s: Seq<char>) -> Option<(u64, u64, u64)> {
    let parts = split_char(version_digits(s), '.');
    match parse_u64(parts[0]) {
        Some(major) => Some((major, field_or_zero(parts, 1), field_or_zero(parts, 2))),
        None => None,
    }
}

/// `a` comes after `b` in (major, minor, patch) order.
pub open spec fn version_gt(a: (u64, u64, u64), b: (u64, u64, u64)) -> bool {
    ||| a.0 > b.0
    ||| a.0 == b.0 && a.1 > b.1
    ||| a.0 == b.0 && a.1 == b.1 && a.2 > b.2
}

/// `candidate` is a newer version than `current`; false when either is not a
/// version.
pub open spec fn is_newer(candidate: Seq<char>, current: Seq<char>) -> bool {
    match (version_of(candidate), version_of(current)) {
        (Some(a), Some(b)) => version_gt(a, b),
        _ => false,
    }
}

fn field_number(parts: &Vec<Vec<char>>, k: usize) -> (r: u64)
    ensures
        r == field_or_zero(parts@.map_values(|p: Vec<char>| p@), k as int),
{
    if k < parts.len() {
        match parse_u64_chars(parts[k].as_slice()) {
            Some(n) => n,
            None => 0,
        }
    } else {
        0
    }
}

/// Splits "a.b.c" (with an optional leading `v`) into comparable numbers.
pub fn parse_ver(s: &str) -> (r: Option<(u64, u64, u64)>)
    ensures
        r == version_of(s@),
{
    let chars = chars_of(s);
    let trimmed = trim_chars(chars.as_slice());
    let digits = strip_leading_chars(trimmed.as_slice(), 'v');
    let parts = split_chars(digits.as_slice(), '.');
    let ghost spec_parts = split_char(version_digits(s@), '.');
    proof {
        lemma_split_char_nonempty(version_digits(s@), '.');
    }
    assert(parts@.map_values(|p: Vec<char>| p@) =~= spec_parts);
    let major = match parse_u64_chars(parts[0].as_slice()) {
        Some(n) => n,
        None => {
            return None;
        },
    };
    let minor = field_number(&parts, 1);
    let patch = field_number(&parts, 2);
    Some((major, minor, patch))
}

/// True when `candidate` is a newer version than `current`.
pub fn newer(candidate: &str, current: &str) -> (r: bool)
    ensures
        r == is_newer(candidate@, current@),
{
    match (parse_ver(candidate), parse_ver(current)) {
        (Some(a), Some(b)) => a.0 > b.0 || (a.0 == b.0 && a.1 > b.1) || (a.0 == b.0 && a.1 == b.1
            && a.2 > b.2),
        _ => false,
    }
}

/// "Newer than" is a strict order: never true of a version and itself, never
/// true both ways, and transitive.
pub proof fn lemma_newer_is_strict_order(a: Seq<char>, b: Seq<char>, c: Seq<char>)
    ensures
        !is_newer(a, a),
        is_newer(a, b) ==> !is_newer(b, a),
        is_newer(a, b) && is_newer(b, c) ==> is_newer(a, c),
{
}


/// The version that a cache file holds: its first line, trimmed, if that is
/// not empty.
pub open spec fn cached_version_of(text: Seq<char>) -> Option<Seq<char>> {
    let line = trim(split_char(text, '\n')[0]);
    if line.len() == 0 {
        None
    } else {
        Some(line)
    }
}

/// Reads the cached latest version out of the cache file's text.
pub fn cached_version(text: &str) -> (r: Option<String>)
    ensures
        opt_chars(r) == cached_version_of(text@),
{
    let chars = chars_of(text);
    let lines = split_chars(chars.as_slice(), '\n');
    proof {
        lemma_split_char_nonempty(text@, '\n');
    }
    let line = trim_chars(lines[0].as_slice());
    if line.len() == 0 {
        None
    } else {
        Some(string_from_chars(line.as_slice()))
    }
}

/// The text of the cache file: the release tag on the first line, the time it
/// was fetched (seconds since the epoch) on the second.
pub open spec fn cache_record_of(tag: Seq<char>, now: u64) -> Seq<char> {
    tag + seq!['\n'] + decimal(now as nat) + seq!['\n']
}

/// The text to store in the cache file for `tag`, fetched at `now`.
pub fn cache_record(tag: &str, now: u64) -> (r: String)
    ensures
        r@ == cache_record_of(tag@, now),
{
    let mut chars = chars_of(tag);
    chars.push('\n');
    push_decimal(&mut chars, now);
    chars.push('\n');
    string_from_chars(chars.as_slice())
}

/// Whether the cache should be fetched again, given the age of the cache file
/// in seconds, if that could be read.
pub fn refresh_due(cache_age_secs: Option<u64>) -> (r: bool)
    ensures
        r == !(cache_age_secs matches Some(age) && age < REFRESH_SECS),
{
    match cache_age_secs {
        Some(age) => age >= REFRESH_SECS,
        None => true,
    }
}

proof fn lemma_split_single(t: Seq<char>, sep: char)
    requires
        !t.contains(sep),
    ensures
        split_char(t, sep) == seq![t],
    decreases t.len(),
{
    if t.len() > 0 {
        assert(!t.drop_last().contains(sep)) by {
            if t.drop_last().contains(sep) {
                let k = choose|k: int| 0 <= k < t.drop_last().len() && t.drop_last()[k] == sep;
                assert(t[k] == sep);
            }
        }
        lemma_split_single(t.drop_last(), sep);
        assert(t.last() != sep) by {
            assert(t[t.len() - 1] == t.last());
        }
        assert(seq![t.drop_last()].last().push(t.last()) =~= t);
    } else {
        assert(t =~= Seq::<char>::empty());
    }
}

proof fn lemma_split_first_kept(p: Seq<char>, u: Seq<char>, sep: char)
    requires
        split_char(p, sep).len() >= 2,
    ensures
        split_char(p + u, sep).len() >= 2,
        split_char(p + u, sep)[0] == split_char(p, sep)[0],
    decreases u.len(),
{
    if u.len() == 0 {
        assert(p + u =~= p);
    } else {
        lemma_split_first_kept(p, u.drop_last(), sep);
        assert((p + u).drop_last() =~= p + u.drop_last());
    }
}

/// The first field of `t`, then `sep`, then anything, is `t` when `t` holds no `sep`.
proof fn lemma_split_first_field(t: Seq<char>, rest: Seq<char>, sep: char)
    requires
        !t.contains(sep),
    ensures
        split_char(t + seq![sep] + rest, sep)[0] == t,
{
    lemma_split_single(t, sep);
    let p = t + seq![sep];
    assert(p.drop_last() =~= t);
    assert(split_char(p, sep) == seq![t].push(Seq::<char>::empty()));
    lemma_split_first_kept(p, rest, sep);
}

/// What the cache file is written with is what is read back from it: a tag
/// with no line break and no surrounding white space is the cached version.
pub proof fn lemma_cache_roundtrip(tag: Seq<char>, now: u64)
    requires
        tag.len() > 0,
        !tag.contains('\n'),
        trim(tag) == tag,
    ensures
        cached_version_of(cache_record_of(tag, now)) == Some(tag),
{
    lemma_split_first_field(tag, decimal(now as nat) + seq!['\n'], '\n');
    assert(cache_record_of(tag, now) =~= tag + seq!['\n'] + (decimal(now as nat) + seq!['\n']));
}

/// The notice printed at launch when the cached latest release is newer than
/// the running version.
pub open spec fn pending_notice_of(latest: Option<Seq<char>>, running: Seq<char>) -> Option<Seq<char>> {
    match latest {
        Some(l) => if is_newer(l, running) {
            Some("🚨 NEW VERSION 🚨 ioscpy "@ + l + " is available. Update with: brew upgrade ioscpy"@)
        } else {
            None
        },
        None => None,
    }
}

/// The alert line to print when a newer ioscpy is out, or `None`. `latest` is
/// what the cache holds ([`cached_version`]), so this returns at once.
pub fn pending_notice(latest: Option<String>, running: &str) -> (r: Option<String>)
    ensures
        opt_chars(r) == pending_notice_of(opt_chars(latest), running@),
{
    match latest {
        Some(l) => {
            if newer(l.as_str(), running) {
                let mut msg = String::new();
                msg.append("🚨 NEW VERSION 🚨 ioscpy ");
                msg.append(l.as_str());
                msg.append(" is available. Update with: brew upgrade ioscpy");
                Some(msg)
            } else {
                None
            }
        },
        None => None,
    }
}

/// The notice for when the iPhone package is older than this Mac app.
pub open spec fn phone_behind_notice_of(daemon: Seq<char>, running: Seq<char>) -> Option<Seq<char>> {
    if is_newer(running, daemon) {
        Some(
            "Your iPhone is running an older ioscpy ("@ + daemon + ") than this Mac ("@ + running
                + "). Update it from your Sileo or Zebra repo."@,
        )
    } else {
        None
    }
}

/// Notice for when the iPhone package is older than this Mac app. Uses the
/// version from the handshake, so it needs no network.
pub fn phone_behind_notice(daemon: &str, running: &str) -> (r: Option<String>)
    ensures
        opt_chars(r) == phone_behind_notice_of(daemon@, running@),
{
    if newer(running, daemon) {
        let mut msg = String::new();
        msg.append("Your iPhone is running an older ioscpy (");
        msg.append(daemon);
        msg.append(") than this Mac (");
        msg.append(running);
        msg.append("). Update it from your Sileo or Zebra repo.");
        Some(msg)
    } else {
        None
    }
}

/// The string member `key` of the JSON object that `body` holds: `None` when
/// `body` is not JSON, is not an object, lacks `key`, or holds something other
/// than a string there.
pub uninterp spec fn json_string_member(body: Seq<u8>, key: Seq<char>) -> Option<Seq<char>>;

/// `serde_json::from_slice::<serde_json::Value>` followed by a lookup of the
/// string member `key` (what `Value::get(key)` then `Value::as_str` give).
/// Trusted: the result is a function of the bytes and the key alone, named
/// `json_string_member`; nothing more of JSON is stated.
#[verifier::external_body]
fn json_str_member(body: &[u8], key: &str) -> (r: Option<String>)
    ensures
        opt_chars(r) == json_string_member(body@, key@),
{
    match serde_json::from_slice::<serde_json::Value>(body) {
        Ok(serde_json::Value::Object(mut members)) => match members.remove(key) {
            Some(serde_json::Value::String(s)) => Some(s),
            _ => None,
        },
        _ => None,
    }
}

/// A release tag as the update check keeps it: trimmed, without its leading
/// `v`s, and `None` when nothing is left.
pub open spec fn release_tag_of(tag: Option<Seq<char>>) -> Option<Seq<char>> {
    match tag {
        Some(t) => {
            let v = strip_leading(trim(t), 'v');
            if v.len() == 0 {
                None
            } else {
                Some(v)
            }
        },
        None => None,
    }
}

/// Cleans up the `tag_name` of a release: trims it and drops its leading `v`s.
pub fn release_tag(tag_name: Option<String>) -> (r: Option<String>)
    ensures
        opt_chars(r) == release_tag_of(opt_chars(tag_name)),
{
    match tag_name {
        Some(t) => {
            let chars = chars_of(t.as_str());
            let trimmed = trim_chars(chars.as_slice());
            let v = strip_leading_chars(trimmed.as_slice(), 'v');
            if v.len() == 0 {
                None
            } else {
                Some(string_from_chars(v.as_slice()))
            }
        },
        None => None,
    }
}

/// The latest release tag in the body of GitHub's "latest release" reply,
/// `None` when the reply has no usable `tag_name`.
pub fn latest_tag(body: &[u8]) -> (r: Option<String>)
    ensures
        opt_chars(r) == release_tag_of(json_string_member(body@, "tag_name"@)),
{
    let tag_name = json_str_member(body, "tag_name");
    release_tag(tag_name)
}

/// Splitting `p`, a separator, then `q` gives the fields of `p` followed by
/// the fields of `q`.
pub proof fn lemma_split_concat(p: Seq<char>, q: Seq<char>, sep: char)
    ensures
        split_char(p + seq![sep] + q, sep) == split_char(p, sep) + split_char(q, sep),
    decreases q.len(),
{
    lemma_split_char_nonempty(p, sep);
    if q.len() == 0 {
        assert((p + seq![sep]).drop_last() =~= p);
        assert(p + seq![sep] + q =~= p + seq![sep]);
        assert(split_char(p, sep).push(Seq::<char>::empty()) =~= split_char(p, sep) + seq![Seq::<char>::empty()]);
    } else {
        lemma_split_concat(p, q.drop_last(), sep);
        lemma_split_char_nonempty(q.drop_last(), sep);
        let whole = p + seq![sep] + q;
        assert(whole.drop_last() =~= p + seq![sep] + q.drop_last());
        assert(whole.last() == q.last());
        let a = split_char(p, sep);
        let b = split_char(q.drop_last(), sep);
        if q.last() == sep {
            assert((a + b).push(Seq::<char>::empty()) =~= a + b.push(Seq::<char>::empty()));
        } else {
            assert((a + b).update((a + b).len() - 1, (a + b).last().push(q.last())) =~= a + b.update(
                b.len() - 1,
                b.last().push(q.last()),
            ));
        }
    }
}

proof fn lemma_decimal_shape(n: nat)
    ensures
        decimal(n).len() > 0,
        all_digits(decimal(n)),
        !decimal(n).contains('.'),
        !is_white_space(decimal(n)[0]),
        !is_white_space(decimal(n).last()),
        decimal(n)[0] != 'v',
{
    crate::text::lemma_decimal_parses_digits(n);
    let d = decimal(n);
    assert(!d.contains('.')) by {
        if d.contains('.') {
            let k = choose|k: int| 0 <= k < d.len() && d[k] == '.';
            assert(crate::text::is_digit(d[k]));
        }
    }
    assert(crate::text::is_digit(d[0]));
    assert(crate::text::is_digit(d[d.len() - 1]));
}

/// The usual spelling of a version, "a.b.c", reads back as (a, b, c).
pub proof fn lemma_version_of_canonical(a: u64, b: u64, c: u64)
    ensures
        version_of(decimal(a as nat) + "."@ + decimal(b as nat) + "."@ + decimal(c as nat)) == Some((a, b, c)),
{
    let (da, db, dc) = (decimal(a as nat), decimal(b as nat), decimal(c as nat));
    lemma_decimal_shape(a as nat);
    lemma_decimal_shape(b as nat);
    lemma_decimal_shape(c as nat);
    crate::text::lemma_decimal_parses(a);
    crate::text::lemma_decimal_parses(b);
    crate::text::lemma_decimal_parses(c);
    reveal_strlit(".");
    let s = da + "."@ + db + "."@ + dc;
    assert(s =~= da + seq!['.'] + (db + seq!['.'] + dc));
    assert(s[0] == da[0]);
    assert(s.last() == dc.last());
    lemma_trim_untouched(s);
    assert(strip_leading(s, 'v') == s);
    lemma_split_single(da, '.');
    lemma_split_single(db, '.');
    lemma_split_single(dc, '.');
    lemma_split_concat(db, dc, '.');
    lemma_split_concat(da, db + seq!['.'] + dc, '.');
    assert(split_char(s, '.') =~= seq![da, db, dc]);
}

/// Text that neither starts nor ends with white space is its own trim.
pub proof fn lemma_trim_untouched(s: Seq<char>)
    requires
        s.len() > 0,
        !is_white_space(s[0]),
        !is_white_space(s.last()),
    ensures
        trim(s) == s,
{
}

/// A leading `v` is optional: "v1.2.3" is the same version as "1.2.3".
pub proof fn lemma_version_leading_v(s: Seq<char>)
    requires
        s.len() > 0,
        !is_white_space(s[0]),
        !is_white_space(s.last()),
    ensures
        version_of(seq!['v'] + s) == version_of(s),
{
    let vs = seq!['v'] + s;
    assert(vs.last() == s.last());
    lemma_trim_untouched(vs);
    lemma_trim_untouched(s);
    assert(vs.subrange(1, vs.len() as int) =~= s);
}

/// The usual spelling "a.b.c" of a version.
pub open spec fn version_text(a: u64, b: u64, c: u64) -> Seq<char> {
    decimal(a as nat) + "."@ + decimal(b as nat) + "."@ + decimal(c as nat)
}

/// Versions compare by major number first, then minor, then patch: "a.b.c" is
/// newer than "d.e.f" exactly when a > d, or a = d and b > e, or a = d, b = e
/// and c > f.
pub proof fn lemma_newer_is_lexicographic(a: u64, b: u64, c: u64, d: u64, e: u64, f: u64)
    ensures
        is_newer(version_text(a, b, c), version_text(d, e, f)) == (a > d || (a == d && b > e) || (a
            == d && b == e && c > f)),
{
    lemma_version_of_canonical(a, b, c);
    lemma_version_of_canonical(d, e, f);
}

/// A higher minor number wins whatever the patch numbers are: "a.(b+1).0" is
/// newer than "a.b.c", and "a.b.c" is not newer than "a.(b+1).0".
pub proof fn lemma_newer_minor_over_patch(a: u64, b: u64, c: u64)
    requires
        b < u64::MAX,
    ensures
        is_newer(version_text(a, (b + 1) as u64, 0), version_text(a, b, c)),
        !is_newer(version_text(a, b, c), version_text(a, (b + 1) as u64, 0)),
{
    lemma_newer_is_lexicographic(a, (b + 1) as u64, 0, a, b, c);
    lemma_newer_is_lexicographic(a, b, c, a, (b + 1) as u64, 0);
}

/// The new-version notice is shown exactly when the cached release is newer
/// than the running version; never when the running version is the newer one,
/// nor when nothing is cached.
pub proof fn lemma_pending_notice_only_when_newer(latest: Option<Seq<char>>, running: Seq<char>)
    ensures
        pending_notice_of(latest, running) is Some <==> (latest is Some && is_newer(
            latest->Some_0,
            running,
        )),
        latest matches Some(l) && is_newer(running, l) ==> pending_notice_of(latest, running) is None,
        latest matches Some(l) && l == running ==> pending_notice_of(latest, running) is None,
{
    if let Some(l) = latest {
        lemma_newer_is_strict_order(l, running, l);
        lemma_newer_is_strict_order(running, l, running);
    }
}

/// The phone notice is shown exactly when the Mac runs a newer version than the
/// phone; never when the phone is the newer one.
pub proof fn lemma_phone_notice_only_when_behind(daemon: Seq<char>, running: Seq<char>)
    ensures
        phone_behind_notice_of(daemon, running) is Some <==> is_newer(running, daemon),
        is_newer(daemon, running) ==> phone_behind_notice_of(daemon, running) is None,
{
    lemma_newer_is_strict_order(daemon, running, daemon);
}
} // verus!
