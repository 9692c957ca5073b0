//! Android Virtual Device metadata: the `config.ini` reader, the
//! phone/tablet classification, and display names.

use vstd::prelude::*;
use crate::text::{is_whitespace, own, string_of, string_of_range, trim, trim_bounds, is_ws, chars_of};

verus! {

#[derive(Debug, Clone, Copy, PartialEq, Eq, Structural)]
pub enum AvdKind {
    Phone,
    Tablet,
}

/// An AVD as the emulator sidebar lists it.
#[derive(Debug, Clone)]
pub struct AndroidAvd {
    pub name: String,
    pub display_name: String,
    pub kind: AvdKind,
    pub width: Option<u32>,
    pub height: Option<u32>,
    pub density: Option<u32>,
}

/// What `config.ini` tells about an AVD.
#[derive(Debug, Clone)]
pub struct IniMeta {
    pub display_name: Option<String>,
    pub kind: AvdKind,
    pub width: Option<u32>,
    pub height: Option<u32>,
    pub density: Option<u32>,
}

/// The text that `String::from_utf8_lossy` makes of `bytes`.
pub uninterp spec fn utf8_lossy(bytes: Seq<u8>) -> Seq<char>;

/// `String::from_utf8_lossy(bytes)`: invalid sequences become U+FFFD.
#[verifier::external_body]
fn decode_utf8_lossy(bytes: &[u8]) -> (s: String)
    ensures
        s@ == utf8_lossy(bytes@),
{
    String::from_utf8_lossy(bytes).into_owned()
}

/// `s` cut at every `'\n'`; the pieces, in order (one more than the
/// number of newlines).
pub open spec fn split_lines(s: Seq<char>) -> Seq<Seq<char>>
    decreases s.len(),
{
    if s.len() == 0 {
        seq![Seq::empty()]
    } else {
        let r = split_lines(s.drop_last());
        if s.last() == '\n' {
            r.push(Seq::empty())
        } else {
            r.update(r.len() - 1, r.last().push(s.last()))
        }
    }
}

proof fn lemma_split_nonempty(s: Seq<char>)
    ensures
        split_lines(s).len() >= 1,
    decreases s.len(),
{
    if s.len() > 0 {
        lemma_split_nonempty(s.drop_last());
    }
}

pub open spec fn is_digit(c: char) -> bool {
    '0' <= c && c <= '9'
}

pub open spec fn digits_value(s: Seq<char>) -> nat
    decreases s.len(),
{
    if s.len() == 0 {
        0
    } else {
        digits_value(s.drop_last()) * 10 + ((s.last() as u32) - 48) as nat
    }
}

/// `str::parse::<u32>`: an optional `+`, then one or more ASCII digits
/// whose value fits.
pub open spec fn parse_u32(s: Seq<char>) -> Option<u32> {
    parse_digits(unsigned_part(s))
}

/// `s` without one leading `+`.
pub open spec fn unsigned_part(s: Seq<char>) -> Seq<char> {
    if s.len() > 0 && s[0] == '+' { s.drop_first() } else { s }
}

/// One or more ASCII digits whose value fits a `u32`.
pub open spec fn parse_digits(d: Seq<char>) -> Option<u32> {
    if d.len() > 0 && (forall|i: int| 0 <= i < d.len() ==> is_digit(#[trigger] d[i])) && digits_value(d) <= u32::MAX {
        Some(digits_value(d) as u32)
    } else {
        None
    }
}

proof fn lemma_digits_mono(s: Seq<char>, i: int)
    requires
        0 <= i <= s.len(),
        forall|k: int| 0 <= k < s.len() ==> is_digit(#[trigger] s[k]),
    ensures
        digits_value(s.subrange(0, i)) <= digits_value(s),
    decreases s.len() - i,
{
    if i < s.len() {
        lemma_digits_mono(s, i + 1);
        let t = s.subrange(0, i + 1);
        assert(t.drop_last() =~= s.subrange(0, i));
    } else {
        assert(s.subrange(0, i) =~= s);
    }
}

/// Parses `v[lo..hi]` as a `u32`, as `str::parse` does.
pub fn parse_u32_range(v: &Vec<char>, lo: usize, hi: usize) -> (r: Option<u32>)
    requires
        lo <= hi <= v.len(),
    ensures
        r == parse_u32(v@.subrange(lo as int, hi as int)),
{
    let ghost s = v@.subrange(lo as int, hi as int);
    let mut start = lo;
    if lo < hi && v[lo] == '+' {
        start = lo + 1;
    }
    let ghost d = v@.subrange(start as int, hi as int);
    proof {
        if lo < hi && v@[lo as int] == '+' {
            assert(s.drop_first() =~= d);
        } else {
            assert(s =~= d);
        }
    }
    if start == hi {
        return None;
    }
    let mut acc: u64 = 0;
    let mut i: usize = start;
    while i < hi
        invariant
            lo <= start < hi <= v.len(),
            start <= i <= hi,
            d == v@.subrange(start as int, hi as int),
            s == v@.subrange(lo as int, hi as int),
            d == unsigned_part(s),
            forall|k: int| start <= k < i ==> is_digit(#[trigger] v@[k]),
            acc == digits_value(v@.subrange(start as int, i as int)),
            acc <= u32::MAX,
        decreases hi - i,
    {
        let c = v[i];
        if !('0' <= c && c <= '9') {
            proof {
                let j = i - start;
                assert(0 <= j < d.len());
                assert(d[j] == v@[i as int]);
                assert(!is_digit(d[j]));
                assert(!(forall|k: int| 0 <= k < d.len() ==> is_digit(#[trigger] d[k])));
                assert(parse_digits(d) is None);
            }
            return None;
        }
        let digit: u64 = (c as u32 - 48) as u64;
        proof {
            assert(v@.subrange(start as int, i + 1).drop_last() =~= v@.subrange(start as int, i as int));
            assert(v@.subrange(start as int, i + 1).last() == c);
        }
        acc = acc * 10 + digit;
        i = i + 1;
        assert(acc == digits_value(v@.subrange(start as int, i as int)));
        if acc > 0xFFFF_FFFF {
            proof {
                if forall|k: int| 0 <= k < d.len() ==> is_digit(#[trigger] d[k]) {
                    lemma_digits_mono(d, (i - start) as int);
                    assert(d.subrange(0, (i - start) as int) =~= v@.subrange(start as int, i as int));
                    assert(digits_value(d) > u32::MAX);
                }
                assert(parse_digits(d) is None);
            }
            return None;
        }
    }
    proof {
        assert(v@.subrange(start as int, i as int) =~= d);
        assert forall|k: int| 0 <= k < d.len() implies is_digit(#[trigger] d[k]) by {
            assert(d[k] == v@[start + k]);
        }
    }
    Some(acc as u32)
}

/// The metadata gathered so far while reading `config.ini`.
pub struct IniState {
    pub display_name: Option<Seq<char>>,
    pub width: Option<u32>,
    pub height: Option<u32>,
    pub density: Option<u32>,
    pub tag: Option<Seq<char>>,
}

/// The index of the first `'='` in `s`, if any.
pub open spec fn first_eq(s: Seq<char>) -> Option<int> {
    if exists|i: int| 0 <= i < s.len() && s[i] == '=' {
        Some(choose|i: int| 0 <= i < s.len() && s[i] == '=' && forall|j: int| 0 <= j < i ==> s[j] != '=')
    } else {
        None
    }
}

/// How one line of `config.ini` updates the gathered metadata: blank
/// lines, `#` comments and lines without `=` change nothing; otherwise
/// the trimmed key before the first `=` selects the field and the trimmed
/// rest is its value.
pub open spec fn ini_step(st: IniState, raw: Seq<char>) -> IniState {
    let line = trim(raw);
    if line.len() == 0 || line[0] == '#' {
        st
    } else {
        match first_eq(line) {
            None => st,
            Some(e) => {
                let key = trim(line.subrange(0, e));
                let value = trim(line.subrange(e + 1, line.len() as int));
                if key == "avd.ini.displayname"@ || key == "hw.device.name"@ {
                    if st.display_name is None && value.len() > 0 {
                        IniState { display_name: Some(value), ..st }
                    } else {
                        st
                    }
                } else if key == "hw.lcd.width"@ {
                    IniState { width: parse_u32(value), ..st }
                } else if key == "hw.lcd.height"@ {
                    IniState { height: parse_u32(value), ..st }
                } else if key == "hw.lcd.density"@ {
                    IniState { density: parse_u32(value), ..st }
                } else if key == "tag.id"@ || key == "hw.device.manufacturer"@ {
                    if st.tag is None {
                        IniState { tag: Some(value), ..st }
                    } else {
                        st
                    }
                } else {
                    st
                }
            },
        }
    }
}

pub open spec fn ini_fold(lines: Seq<Seq<char>>) -> IniState
    decreases lines.len(),
{
    if lines.len() == 0 {
        IniState { display_name: None, width: None, height: None, density: None, tag: None }
    } else {
        ini_step(ini_fold(lines.drop_last()), lines.last())
    }
}

/// Tablet when both dimensions are known and the smaller is at least 1200.
pub open spec fn kind_of(width: Option<u32>, height: Option<u32>) -> AvdKind {
    match (width, height) {
        (Some(w), Some(h)) => if (if w < h { w } else { h }) >= 1200 {
            AvdKind::Tablet
        } else {
            AvdKind::Phone
        },
        _ => AvdKind::Phone,
    }
}

pub fn classify_kind(width: Option<u32>, height: Option<u32>, _tag: Option<&str>) -> (k: AvdKind)
    ensures
        k == kind_of(width, height),
{
    match (width, height) {
        (Some(w), Some(h)) => {
            let m = if w < h { w } else { h };
            if m >= 1200 {
                AvdKind::Tablet
            } else {
                AvdKind::Phone
            }
        },
        _ => AvdKind::Phone,
    }
}

/// The text of an optional owned string.
pub open spec fn opt_text(o: Option<String>) -> Option<Seq<char>> {
    match o {
        Some(s) => Some(s@),
        None => None,
    }
}

/// Whether `v[lo..hi]` equals `lit`.
fn range_is(v: &Vec<char>, lo: usize, hi: usize, lit: &str) -> (r: bool)
    requires
        lo <= hi <= v.len(),
    ensures
        r == (v@.subrange(lo as int, hi as int) == lit@),
{
    let l = chars_of(lit);
    if l.len() != hi - lo {
        return false;
    }
    let mut k: usize = 0;
    while k < l.len()
        invariant
            lo <= hi <= v.len(),
            l.len() == hi - lo,
            l@ == lit@,
            k <= l.len(),
            forall|j: int| 0 <= j < k ==> v@[lo + j] == l@[j],
        decreases l.len() - k,
    {
        if v[lo + k] != l[k] {
            assert(v@.subrange(lo as int, hi as int)[k as int] != l@[k as int]);
            return false;
        }
        k = k + 1;
    }
    assert(v@.subrange(lo as int, hi as int) =~= l@);
    true
}

/// Trim bounds of `v[lo..hi]`, as absolute indices.
fn trim_range(v: &Vec<char>, lo: usize, hi: usize) -> (r: (usize, usize))
    requires
        lo <= hi <= v.len(),
    ensures
        lo <= r.0 <= r.1 <= hi,
        v@.subrange(r.0 as int, r.1 as int) == trim(v@.subrange(lo as int, hi as int)),
{
    let mut piece: Vec<char> = Vec::new();
    let mut i = lo;
    while i < hi
        invariant
            lo <= i <= hi <= v.len(),
            piece@ == v@.subrange(lo as int, i as int),
        decreases hi - i,
    {
        piece.push(v[i]);
        i = i + 1;
        assert(piece@ =~= v@.subrange(lo as int, i as int));
    }
    let (a, b) = trim_bounds(&piece);
    assert(v@.subrange((lo + a) as int, (lo + b) as int) =~= piece@.subrange(a as int, b as int));
    (lo + a, lo + b)
}

/// The gathered metadata, with each line of `config.ini` applied in turn.
pub struct IniFields {
    pub display_name: Option<String>,
    pub width: Option<u32>,
    pub height: Option<u32>,
    pub density: Option<u32>,
    pub tag: Option<String>,
}

pub open spec fn fields_match(f: IniFields, st: IniState) -> bool {
    &&& opt_text(f.display_name) == st.display_name
    &&& f.width == st.width
    &&& f.height == st.height
    &&& f.density == st.density
    &&& opt_text(f.tag) == st.tag
}

/// Applies the line `v[lo..hi]` to the gathered metadata.
fn apply_line(f: IniFields, v: &Vec<char>, lo: usize, hi: usize) -> (r: IniFields)
    requires
        lo <= hi <= v.len(),
    ensures
        forall|st: IniState| fields_match(f, st) ==> fields_match(r, #[trigger] ini_step(st, v@.subrange(lo as int, hi as int))),
{
    let ghost raw = v@.subrange(lo as int, hi as int);
    let (a, b) = trim_range(v, lo, hi);
    let ghost line = trim(raw);
    if a == b || v[a] == '#' {
        return f;
    }
    let mut e = a;
    while e < b && v[e] != '='
        invariant
            a <= e <= b <= v.len(),
            forall|j: int| a <= j < e ==> v@[j] != '=',
        decreases b - e,
    {
        e = e + 1;
    }
    if e == b {
        proof {
            assert(!exists|i: int| 0 <= i < line.len() && line[i] == '=') by {
                assert forall|i: int| 0 <= i < line.len() implies line[i] != '=' by {
                    assert(line[i] == v@[a + i]);
                }
            }
        }
        return f;
    }
    proof {
        assert(line[e - a] == '=');
        let c = choose|i: int| 0 <= i < line.len() && line[i] == '=' && forall|j: int| 0 <= j < i ==> line[j] != '=';
        assert(first_eq(line) == Some(c));
        if c < e - a {
            assert(line[c] == v@[a + c]);
        }
        if c > e - a {
            assert(line[e - a] != '=');
        }
        assert(c == e - a);
        assert(line.subrange(0, c) =~= v@.subrange(a as int, e as int));
        assert(line.subrange(c + 1, line.len() as int) =~= v@.subrange(e + 1, b as int));
    }
    let (ka, kb) = trim_range(v, a, e);
    let (va, vb) = trim_range(v, e + 1, b);
    let mut f = f;
    if range_is(v, ka, kb, "avd.ini.displayname") || range_is(v, ka, kb, "hw.device.name") {
        if f.display_name.is_none() && va < vb {
            f.display_name = Some(string_of_range(v, va, vb));
        }
    } else if range_is(v, ka, kb, "hw.lcd.width") {
        f.width = parse_u32_range(v, va, vb);
    } else if range_is(v, ka, kb, "hw.lcd.height") {
        f.height = parse_u32_range(v, va, vb);
    } else if range_is(v, ka, kb, "hw.lcd.density") {
        f.density = parse_u32_range(v, va, vb);
    } else if range_is(v, ka, kb, "tag.id") || range_is(v, ka, kb, "hw.device.manufacturer") {
        if f.tag.is_none() {
            f.tag = Some(string_of_range(v, va, vb));
        }
    }
    f
}

/// Reads the metadata of an AVD from the bytes of its `config.ini`.
pub fn parse_ini_meta(bytes: &[u8]) -> (r: Option<IniMeta>)
    ensures
        r matches Some(m) && ({
            let st = ini_fold(split_lines(utf8_lossy(bytes@)));
            &&& opt_text(m.display_name) == st.display_name
            &&& m.width == st.width
            &&& m.height == st.height
            &&& m.density == st.density
            &&& m.kind == kind_of(st.width, st.height)
        }),
{
    let text = decode_utf8_lossy(bytes);
    let v = chars_of(text.as_str());
    let mut f = IniFields { display_name: None, width: None, height: None, density: None, tag: None };
    let ghost mut done: Seq<Seq<char>> = Seq::empty();
    let mut start: usize = 0;
    let mut i: usize = 0;
    proof {
        assert(v@.subrange(0, 0) =~= Seq::<char>::empty());
        assert(v@.subrange(0, 0).len() == 0);
    }
    while i < v.len()
        invariant
            start <= i <= v.len(),
            split_lines(v@.subrange(0, i as int)) == done.push(v@.subrange(start as int, i as int)),
            fields_match(f, ini_fold(done)),
        decreases v.len() - i,
    {
        proof {
            let t = v@.subrange(0, i + 1);
            assert(t.drop_last() =~= v@.subrange(0, i as int));
            assert(t.last() == v@[i as int]);
        }
        if v[i] == '\n' {
            let ghost line = v@.subrange(start as int, i as int);
            f = apply_line(f, &v, start, i);
            proof {
                assert(done.push(line).drop_last() =~= done);
                done = done.push(line);
                assert(v@.subrange((i + 1) as int, (i + 1) as int) =~= Seq::<char>::empty());
            }
            start = i + 1;
        } else {
            proof {
                let r = done.push(v@.subrange(start as int, i as int));
                assert(v@.subrange(start as int, i as int).push(v@[i as int]) =~= v@.subrange(start as int, i + 1));
                assert(r.update(r.len() - 1, r.last().push(v@[i as int])) =~= done.push(v@.subrange(start as int, i + 1)));
            }
        }
        i = i + 1;
    }
    let ghost line = v@.subrange(start as int, i as int);
    f = apply_line(f, &v, start, i);
    proof {
        assert(v@.subrange(0, v@.len() as int) =~= v@);
        assert(done.push(line).drop_last() =~= done);
    }
    let kind = classify_kind(f.width, f.height, None);
    Some(IniMeta { display_name: f.display_name, kind, width: f.width, height: f.height, density: f.density })
}

pub open spec fn humanized(s: Seq<char>) -> Seq<char> {
    s.map_values(|c: char| if c == '_' || c == '-' { ' ' } else { c })
}

/// The AVD name with `_` and `-` turned into spaces.
pub fn humanize_name(name: &str) -> (r: String)
    ensures
        r@ == humanized(name@),
{
    let v = chars_of(name);
    let mut out: Vec<char> = Vec::new();
    let mut i: usize = 0;
    while i < v.len()
        invariant
            i <= v.len(),
            out@ == humanized(v@.subrange(0, i as int)),
        decreases v.len() - i,
    {
        let c = v[i];
        out.push(if c == '_' || c == '-' { ' ' } else { c });
        i = i + 1;
        assert(out@ =~= humanized(v@.subrange(0, i as int)));
    }
    assert(v@.subrange(0, v@.len() as int) =~= v@);
    string_of(&out)
}

/// The sidebar entry for AVD `name`, from its `config.ini` metadata when
/// that could be read.
pub fn avd_entry(name: String, meta: Option<IniMeta>) -> (a: AndroidAvd)
    ensures
        a.name@ == name@,
        match meta {
            Some(m) => {
                &&& a.display_name@ == match m.display_name { Some(d) => d@, None => name@ }
                &&& a.kind == m.kind
                &&& a.width == m.width
                &&& a.height == m.height
                &&& a.density == m.density
            },
            None => {
                &&& a.display_name@ == humanized(name@)
                &&& a.kind == AvdKind::Phone
                &&& a.width is None && a.height is None && a.density is None
            },
        },
{
    match meta {
        Some(m) => {
            let display_name = match m.display_name {
                Some(d) => d,
                None => own(name.as_str()),
            };
            AndroidAvd { name, display_name, kind: m.kind, width: m.width, height: m.height, density: m.density }
        },
        None => {
            let display_name = humanize_name(name.as_str());
            AndroidAvd { name, display_name, kind: AvdKind::Phone, width: None, height: None, density: None }
        },
    }
}

} // verus!

verus! {

/// The non-blank lines of a listing, trimmed, in order.
pub open spec fn listed_names(ls: Seq<Seq<char>>) -> Seq<Seq<char>>
    decreases ls.len(),
{
    if ls.len() == 0 {
        seq![]
    } else {
        let r = listed_names(ls.drop_last());
        let t = trim(ls.last());
        if t.len() == 0 {
            r
        } else {
            r.push(t)
        }
    }
}

/// `names` followed by those of `extra` that it does not hold yet.
pub open spec fn add_missing(names: Seq<Seq<char>>, extra: Seq<Seq<char>>) -> Seq<Seq<char>>
    decreases extra.len(),
{
    if extra.len() == 0 {
        names
    } else {
        let r = add_missing(names, extra.drop_last());
        if r.contains(extra.last()) {
            r
        } else {
            r.push(extra.last())
        }
    }
}

/// The names of a listing's output bytes.
pub open spec fn listing_names(out: Option<Seq<u8>>) -> Seq<Seq<char>> {
    match out {
        Some(b) => listed_names(crate::lines::lines(utf8_lossy(b))),
        None => seq![],
    }
}

/// The AVD names: every name that the emulator lists, then each name that
/// the AVD manager lists and the emulator did not.
pub open spec fn avd_names(emulator: Option<Seq<u8>>, avdmanager: Option<Seq<u8>>) -> Seq<Seq<char>> {
    add_missing(listing_names(emulator), listing_names(avdmanager))
}

pub open spec fn opt_bytes(o: Option<Vec<u8>>) -> Option<Seq<u8>> {
    match o {
        Some(v) => Some(v@),
        None => None,
    }
}

fn listing_name_list(out: &[u8]) -> (r: Vec<String>)
    ensures
        crate::sorting::string_views(r@) == listed_names(crate::lines::lines(utf8_lossy(out@))),
{
    let text = decode_utf8_lossy(out);
    let v = chars_of(text.as_str());
    let ls = crate::lines::split_lines_chars(&v);
    let ghost all = crate::lines::texts(ls@);
    let mut names: Vec<String> = Vec::new();
    let mut i: usize = 0;
    while i < ls.len()
        invariant
            i <= ls.len(),
            all == crate::lines::texts(ls@),
            crate::sorting::string_views(names@) == listed_names(all.subrange(0, i as int)),
        decreases ls.len() - i,
    {
        proof {
            assert(all.subrange(0, i + 1).drop_last() =~= all.subrange(0, i as int));
            assert(all[i as int] == ls@[i as int]@);
        }
        let (lo, hi) = trim_bounds(&ls[i]);
        if lo < hi {
            let ghost before = names@;
            names.push(string_of_range(&ls[i], lo, hi));
            assert(crate::sorting::string_views(names@) =~= crate::sorting::string_views(before).push(
                trim(all[i as int]),
            ));
        }
        i = i + 1;
    }
    proof {
        assert(all.subrange(0, ls@.len() as int) =~= all);
    }
    names
}

fn holds_name(names: &Vec<String>, name: &str) -> (r: bool)
    ensures
        r == crate::sorting::string_views(names@).contains(name@),
{
    let mut i: usize = 0;
    while i < names.len()
        invariant
            i <= names.len(),
            forall|j: int| 0 <= j < i ==> (#[trigger] crate::sorting::string_views(names@)[j]) != name@,
        decreases names.len() - i,
    {
        if crate::text::str_eq(names[i].as_str(), name) {
            assert(crate::sorting::string_views(names@)[i as int] == name@);
            return true;
        }
        i = i + 1;
    }
    false
}

/// The AVD names from the output of `emulator -list-avds` and of
/// `avdmanager list avd -c` (`None` where the tool is absent or did not
/// succeed): every name the emulator lists, in order, then each name the
/// manager lists that is not there yet.
pub fn collect_names(emulator_listing: Option<Vec<u8>>, avdmanager_listing: Option<Vec<u8>>) -> (names: Vec<String>)
    ensures
        crate::sorting::string_views(names@) == avd_names(opt_bytes(emulator_listing), opt_bytes(avdmanager_listing)),
{
    let mut names: Vec<String> = match &emulator_listing {
        Some(out) => listing_name_list(out.as_slice()),
        None => Vec::new(),
    };
    assert(crate::sorting::string_views(names@) == listing_names(opt_bytes(emulator_listing)));
    match &avdmanager_listing {
        Some(out) => {
            let extra = listing_name_list(out.as_slice());
            let ghost first = crate::sorting::string_views(names@);
            let ghost ex = crate::sorting::string_views(extra@);
            let mut i: usize = 0;
            while i < extra.len()
                invariant
                    i <= extra.len(),
                    ex == crate::sorting::string_views(extra@),
                    crate::sorting::string_views(names@) == add_missing(first, ex.subrange(0, i as int)),
                decreases extra.len() - i,
            {
                proof {
                    assert(ex.subrange(0, i + 1).drop_last() =~= ex.subrange(0, i as int));
                    assert(ex[i as int] == extra@[i as int]@);
                }
                if !holds_name(&names, extra[i].as_str()) {
                    let ghost before = names@;
                    names.push(own(extra[i].as_str()));
                    assert(crate::sorting::string_views(names@) =~= crate::sorting::string_views(before).push(
                        ex[i as int],
                    ));
                }
                i = i + 1;
            }
            proof {
                assert(ex.subrange(0, ex.len() as int) =~= ex);
            }
        },
        None => {},
    }
    names
}

} // verus!
