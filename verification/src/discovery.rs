//! Device discovery: resolving candidate addresses from free-form
//! service-discovery scan text.
//!
//! A device entry in the scan text is a literal device-name marker
//! followed, anywhere later in the text, by a dotted-quad IPv4 address
//! (one to three digits per group, maximal munch).  Every such address is
//! collected as a candidate, in encounter order; exact duplicates are
//! deliberately not removed, since a device can legitimately appear more
//! than once in the scan.
//!
//! With no candidate the search fails; with exactly one it resolves
//! without prompting; with several, input lines are consumed one by one
//! until one parses as an index in range — an invalid line asks for the
//! next, it never aborts the search by itself.

use vstd::prelude::*;

verus! {

/// A discovery failure.
#[derive(Debug, Clone, Copy, PartialEq, Eq, Structural)]
pub enum DiscoveryError {
    /// The scan text holds no device entry at all.
    DeviceNotFound,
    /// No supplied input line selects a candidate in range.
    InvalidSelection,
    /// No address was supplied and the user declined a scan.
    MissingAddress,
}

/// True of the ten ASCII decimal digits.
pub open spec fn spec_is_digit(c: char) -> bool {
    48 <= c as u32 <= 57
}

/// The value of one decimal digit character.
pub open spec fn spec_digit_value(c: char) -> int {
    c as u32 - 48
}

/// True of the whitespace characters that surround a typed selection.
pub open spec fn spec_is_ws(c: char) -> bool {
    c == ' ' || c == '\t' || c == '\r' || c == '\n'
}

/// How many consecutive digits stand at position `i`.
pub open spec fn spec_digit_run(s: Seq<char>, i: int) -> nat
    decreases s.len() - i,
    when 0 <= i <= s.len()
{
    if i < s.len() && spec_is_digit(s[i]) {
        1 + spec_digit_run(s, i + 1)
    } else {
        0
    }
}

/// The digit run at `i` stays within the text.
pub proof fn lemma_digit_run_bounds(s: Seq<char>, i: int)
    requires
        0 <= i <= s.len(),
    ensures
        i + spec_digit_run(s, i) <= s.len(),
    decreases s.len() - i,
{
    if i < s.len() && spec_is_digit(s[i]) {
        lemma_digit_run_bounds(s, i + 1);
    }
}

/// Every character of the digit run is a digit.
pub proof fn lemma_digit_run_digits(s: Seq<char>, i: int)
    requires
        0 <= i <= s.len(),
    ensures
        forall|k: int| i <= k < i + spec_digit_run(s, i) ==> spec_is_digit(s[k]),
    decreases s.len() - i,
{
    if i < s.len() && spec_is_digit(s[i]) {
        lemma_digit_run_digits(s, i + 1);
    }
}

/// One address group: the digits at `i`, up to three of them (maximal
/// munch).
pub open spec fn spec_group_len(s: Seq<char>, i: int) -> nat {
    let r = spec_digit_run(s, i);
    if r > 3 {
        3
    } else {
        r
    }
}

/// The length of the dotted-quad address starting exactly at `i`: four
/// groups of one to three digits (each maximal), separated by dots.
/// `None` when no address starts at `i`.
pub open spec fn spec_quad_len(s: Seq<char>, i: int) -> Option<int>
    recommends
        0 <= i <= s.len(),
{
    let g1 = spec_group_len(s, i);
    if g1 == 0 {
        None
    } else {
        let p1 = i + g1;
        if !(p1 < s.len() && s[p1] == '.') {
            None
        } else {
            let g2 = spec_group_len(s, p1 + 1);
            if g2 == 0 {
                None
            } else {
                let p2 = p1 + 1 + g2;
                if !(p2 < s.len() && s[p2] == '.') {
                    None
                } else {
                    let g3 = spec_group_len(s, p2 + 1);
                    if g3 == 0 {
                        None
                    } else {
                        let p3 = p2 + 1 + g3;
                        if !(p3 < s.len() && s[p3] == '.') {
                            None
                        } else {
                            let g4 = spec_group_len(s, p3 + 1);
                            if g4 == 0 {
                                None
                            } else {
                                Some(p3 + 1 + g4 - i)
                            }
                        }
                    }
                }
            }
        }
    }
}

/// A found address is non-empty and stays within the text.
pub proof fn lemma_quad_len_bounds(s: Seq<char>, i: int)
    requires
        0 <= i <= s.len(),
    ensures
        spec_quad_len(s, i) matches Some(l) ==> 0 < l && i + l <= s.len(),
{
    lemma_digit_run_bounds(s, i);
    if spec_quad_len(s, i) is Some {
        let g1 = spec_group_len(s, i);
        let p1 = i + g1;
        lemma_digit_run_bounds(s, p1 + 1);
        let g2 = spec_group_len(s, p1 + 1);
        let p2 = p1 + 1 + g2;
        lemma_digit_run_bounds(s, p2 + 1);
        let g3 = spec_group_len(s, p2 + 1);
        let p3 = p2 + 1 + g3;
        lemma_digit_run_bounds(s, p3 + 1);
    }
}

/// True when the device-name marker stands at position `p`.
pub open spec fn spec_marker_at(s: Seq<char>, p: int) -> bool {
    p + 11 <= s.len() && s.subrange(p, p + 11) == "Chromecast-"@
}

/// The device-name marker is eleven characters long.
pub proof fn lemma_marker_len()
    ensures
        "Chromecast-"@.len() == 11,
{
    reveal_strlit("Chromecast-");
}

/// The candidate addresses of the scan text from position `p` on:
/// after each marker, the first dotted-quad address is collected, and the
/// scan resumes right after it.
pub open spec fn spec_scan(s: Seq<char>, p: int, after_marker: bool) -> Seq<Seq<char>>
    decreases s.len() - p, 1int,
    when 0 <= p <= s.len()
{
    if p >= s.len() {
        seq![]
    } else if after_marker {
        match spec_quad_len(s, p) {
            Some(l) => spec_scan_found(s, p, l),
            None => spec_scan(s, p + 1, true),
        }
    } else {
        if spec_marker_at(s, p) {
            spec_scan(s, p + 11, true)
        } else {
            spec_scan(s, p + 1, false)
        }
    }
}

/// One collected address, then the scan resumes after it.
pub open spec fn spec_scan_found(s: Seq<char>, p: int, l: int) -> Seq<Seq<char>>
    decreases s.len() - p, 0int,
    when 0 <= p && 0 < l && p + l <= s.len()
{
    seq![s.subrange(p, p + l)] + spec_scan(s, p + l, false)
}

/// The candidate addresses of the whole scan text, in encounter order.
pub open spec fn spec_extract(s: Seq<char>) -> Seq<Seq<char>> {
    spec_scan(s, 0, false)
}

/// True of the ten ASCII decimal digits, per [`spec_is_digit`].
fn char_is_digit(c: char) -> (r: bool)
    ensures
        r == spec_is_digit(c),
{
    let u = c as u32;
    48 <= u && u <= 57
}

/// Counts the consecutive digits at `i`, per [`spec_digit_run`].
fn digit_run(s: &str, i: usize, n: usize) -> (r: usize)
    requires
        i <= n,
        n == s@.len(),
    ensures
        r as nat == spec_digit_run(s@, i as int),
        i + r <= n,
{
    let mut j = i;
    while j < n && char_is_digit(s.get_char(j))
        invariant
            i <= j <= n,
            n == s@.len(),
            spec_digit_run(s@, i as int) == j - i + spec_digit_run(s@, j as int),
        decreases n - j,
    {
        proof {
            assert(spec_digit_run(s@, j as int) == 1 + spec_digit_run(s@, j as int + 1));
        }
        j += 1;
    }
    proof {
        assert(spec_digit_run(s@, j as int) == 0);
    }
    j - i
}

/// One address group at `i`, per [`spec_group_len`].
fn group_len(s: &str, i: usize, n: usize) -> (g: usize)
    requires
        i <= n,
        n == s@.len(),
    ensures
        g as nat == spec_group_len(s@, i as int),
        i + g <= n,
{
    let r = digit_run(s, i, n);
    if r > 3 {
        3
    } else {
        r
    }
}

/// The dotted-quad address starting exactly at `i`, per
/// [`spec_quad_len`].
fn quad_len(s: &str, i: usize, n: usize) -> (r: Option<usize>)
    requires
        i <= n,
        n == s@.len(),
    ensures
        match r {
            Some(l) => spec_quad_len(s@, i as int) == Some(l as int) && 0 < l && i + l <= n,
            None => spec_quad_len(s@, i as int) is None,
        },
{
    let g1 = group_len(s, i, n);
    if g1 == 0 {
        return None;
    }
    let p1 = i + g1;
    if !(p1 < n && s.get_char(p1) == '.') {
        return None;
    }
    let g2 = group_len(s, p1 + 1, n);
    if g2 == 0 {
        return None;
    }
    let p2 = p1 + 1 + g2;
    if !(p2 < n && s.get_char(p2) == '.') {
        return None;
    }
    let g3 = group_len(s, p2 + 1, n);
    if g3 == 0 {
        return None;
    }
    let p3 = p2 + 1 + g3;
    if !(p3 < n && s.get_char(p3) == '.') {
        return None;
    }
    let g4 = group_len(s, p3 + 1, n);
    if g4 == 0 {
        return None;
    }
    Some(p3 + 1 + g4 - i)
}

/// True when the device-name marker stands at `p`, per
/// [`spec_marker_at`].
fn marker_at(s: &str, p: usize, n: usize) -> (r: bool)
    requires
        p <= n,
        n == s@.len(),
    ensures
        r == spec_marker_at(s@, p as int),
{
    proof {
        lemma_marker_len();
    }
    if n - p < 11 {
        proof {
            assert(!spec_marker_at(s@, p as int));
        }
        return false;
    }
    let r = s.get_char(p) == 'C' && s.get_char(p + 1) == 'h' && s.get_char(p + 2) == 'r'
        && s.get_char(p + 3) == 'o' && s.get_char(p + 4) == 'm' && s.get_char(p + 5) == 'e'
        && s.get_char(p + 6) == 'c' && s.get_char(p + 7) == 'a' && s.get_char(p + 8) == 's'
        && s.get_char(p + 9) == 't' && s.get_char(p + 10) == '-';
    proof {
        reveal_strlit("Chromecast-");
        let ghost sub = s@.subrange(p as int, p as int + 11);
        assert(forall|k: int| 0 <= k < 11 ==> sub[k] == s@[p + k]);
        if r {
            assert(sub =~= "Chromecast-"@);
        }
        if spec_marker_at(s@, p as int) {
            assert(s@[p as int] == sub[0]);
            assert(s@[p + 1] == sub[1]);
            assert(s@[p + 2] == sub[2]);
            assert(s@[p + 3] == sub[3]);
            assert(s@[p + 4] == sub[4]);
            assert(s@[p + 5] == sub[5]);
            assert(s@[p + 6] == sub[6]);
            assert(s@[p + 7] == sub[7]);
            assert(s@[p + 8] == sub[8]);
            assert(s@[p + 9] == sub[9]);
            assert(s@[p + 10] == sub[10]);
        }
    }
    r
}

/// Collects the candidate addresses of the scan text, per
/// [`spec_extract`]: after each device-name marker, the first dotted-quad
/// address, in encounter order, duplicates kept.
pub fn extract_addresses(text: &str) -> (r: Vec<String>)
    ensures
        r.deep_view() == spec_extract(text@),
{
    let n = text.unicode_len();
    let mut out: Vec<String> = Vec::new();
    let mut p: usize = 0;
    let mut after_marker = false;
    while p < n
        invariant
            p <= n,
            n == text@.len(),
            out.deep_view() + spec_scan(text@, p as int, after_marker) =~= spec_extract(text@),
        decreases n - p,
    {
        if after_marker {
            match quad_len(text, p, n) {
                Some(l) => {
                    let ghost pre = out.deep_view();
                    let sub = text.substring_char(p, p + l);
                    out.push(String::from_str(sub));
                    proof {
                        assert(out.deep_view() =~= pre.push(text@.subrange(
                            p as int,
                            p as int + l,
                        )));
                        assert(spec_scan(text@, p as int, true) == spec_scan_found(
                            text@,
                            p as int,
                            l as int,
                        ));
                        assert(out.deep_view() + spec_scan(text@, p as int + l, false)
                            =~= pre + spec_scan(text@, p as int, true));
                    }
                    p += l;
                    after_marker = false;
                },
                None => {
                    proof {
                        assert(spec_scan(text@, p as int, true) == spec_scan(
                            text@,
                            p as int + 1,
                            true,
                        ));
                    }
                    p += 1;
                },
            }
        } else {
            if marker_at(text, p, n) {
                proof {
                    lemma_marker_len();
                    assert(spec_scan(text@, p as int, false) == spec_scan(
                        text@,
                        p as int + 11,
                        true,
                    ));
                }
                p += 11;
                after_marker = true;
            } else {
                proof {
                    assert(spec_scan(text@, p as int, false) == spec_scan(
                        text@,
                        p as int + 1,
                        false,
                    ));
                }
                p += 1;
            }
        }
    }
    proof {
        assert(spec_scan(text@, p as int, after_marker) =~= Seq::<Seq<char>>::empty());
        assert(out.deep_view() =~= spec_extract(text@));
    }
    out
}

/// The text without its leading and trailing whitespace.
pub open spec fn spec_trim(s: Seq<char>) -> Seq<char>
    decreases s.len(),
{
    if s.len() == 0 {
        s
    } else if spec_is_ws(s[0]) {
        spec_trim(s.drop_first())
    } else if spec_is_ws(s.last()) {
        spec_trim(s.drop_last())
    } else {
        s
    }
}

/// True of the whitespace characters, per [`spec_is_ws`].
fn char_is_ws(c: char) -> (r: bool)
    ensures
        r == spec_is_ws(c),
{
    c == ' ' || c == '\t' || c == '\r' || c == '\n'
}

/// The value of an all-digit text, most significant digit first.
pub open spec fn spec_digits_value(s: Seq<char>) -> int
    decreases s.len(),
{
    if s.len() == 0 {
        0
    } else {
        spec_digits_value(s.drop_last()) * 10 + spec_digit_value(s.last())
    }
}

/// The value of an all-digit text is not negative and never shrinks as
/// the text grows.
pub proof fn lemma_digits_value_grows(s: Seq<char>)
    requires
        forall|k: int| 0 <= k < s.len() ==> spec_is_digit(s[k]),
    ensures
        spec_digits_value(s) >= 0,
        s.len() > 0 ==> spec_digits_value(s) >= spec_digits_value(s.drop_last()),
    decreases s.len(),
{
    if s.len() > 0 {
        lemma_digits_value_grows(s.drop_last());
    }
}

/// The value of every prefix of an all-digit text is at most the value
/// of the text.
pub proof fn lemma_digits_value_prefix(s: Seq<char>, i: int)
    requires
        forall|k: int| 0 <= k < s.len() ==> spec_is_digit(s[k]),
        0 <= i <= s.len(),
    ensures
        spec_digits_value(s.take(i)) <= spec_digits_value(s),
    decreases s.len() - i,
{
    if i < s.len() {
        lemma_digits_value_prefix(s, i + 1);
        assert(s.take(i + 1).drop_last() =~= s.take(i));
        assert(forall|k: int|
            0 <= k < s.take(i + 1).len() ==> spec_is_digit(#[trigger] s.take(i + 1)[k]));
        lemma_digits_value_grows(s.take(i + 1));
    } else {
        assert(s.take(i) =~= s);
    }
}

/// How a typed selection resolves to a number: the line is trimmed of
/// surrounding whitespace; it must then be one or more digits and nothing
/// else, and its value must fit the machine's index type.
pub open spec fn spec_parse_index(s: Seq<char>) -> Option<int> {
    let t = spec_trim(s);
    if t.len() == 0 {
        None
    } else if exists|k: int| 0 <= k < t.len() && !spec_is_digit(t[k]) {
        None
    } else if spec_digits_value(t) > usize::MAX {
        None
    } else {
        Some(spec_digits_value(t))
    }
}

/// The slice of the line without its surrounding whitespace, per
/// [`spec_trim`].
fn trim_str<'a>(s: &'a str) -> (r: &'a str)
    ensures
        r@ == spec_trim(s@),
{
    let mut lo: usize = 0;
    let mut hi = s.unicode_len();
    proof {
        assert(s@.subrange(0, hi as int) =~= s@);
    }
    while lo < hi && char_is_ws(s.get_char(lo))
        invariant
            lo <= hi <= s@.len(),
            spec_trim(s@) == spec_trim(s@.subrange(lo as int, hi as int)),
        decreases hi - lo,
    {
        proof {
            let ghost sub = s@.subrange(lo as int, hi as int);
            assert(sub.drop_first() =~= s@.subrange(lo as int + 1, hi as int));
        }
        lo += 1;
    }
    while lo < hi && char_is_ws(s.get_char(hi - 1))
        invariant
            lo <= hi <= s@.len(),
            spec_trim(s@) == spec_trim(s@.subrange(lo as int, hi as int)),
            lo < hi ==> !spec_is_ws(s@[lo as int]),
        decreases hi - lo,
    {
        proof {
            let ghost sub = s@.subrange(lo as int, hi as int);
            assert(sub.drop_last() =~= s@.subrange(lo as int, hi as int - 1));
        }
        hi -= 1;
    }
    let r = s.substring_char(lo, hi);
    proof {
        let ghost sub = s@.subrange(lo as int, hi as int);
        if sub.len() > 0 {
            assert(!spec_is_ws(sub[0]));
            assert(!spec_is_ws(sub.last()));
        }
        assert(spec_trim(sub) == sub);
    }
    r
}

/// Resolves a typed selection to a number, per [`spec_parse_index`].
pub fn parse_index(line: &str) -> (r: Option<usize>)
    ensures
        match r {
            Some(v) => spec_parse_index(line@) == Some(v as int),
            None => spec_parse_index(line@) is None,
        },
{
    let t = trim_str(line);
    let n = t.unicode_len();
    if n == 0 {
        return None;
    }
    let mut acc: usize = 0;
    let mut i: usize = 0;
    while i < n
        invariant
            i <= n,
            n == t@.len(),
            t@ == spec_trim(line@),
            forall|k: int| 0 <= k < i ==> spec_is_digit(t@[k]),
            acc == spec_digits_value(t@.take(i as int)),
        decreases n - i,
    {
        let c = t.get_char(i);
        if !char_is_digit(c) {
            return None;
        }
        let d = (c as u32) - 48;
        proof {
            assert(t@.take(i as int + 1).drop_last() =~= t@.take(i as int));
            assert(t@.take(i as int + 1).last() == t@[i as int]);
        }
        if acc > (usize::MAX - d as usize) / 10 {
            proof {
                assert(spec_digits_value(t@.take(i as int + 1)) > usize::MAX) by {
                    assert(acc * 10 + d > usize::MAX) by (nonlinear_arith)
                        requires
                            acc > (usize::MAX - d as usize) / 10,
                            d <= 9,
                    ;
                }
                if forall|k: int| 0 <= k < t@.len() ==> spec_is_digit(t@[k]) {
                    lemma_digits_value_prefix(t@, i as int + 1);
                    assert(spec_digits_value(t@) > usize::MAX);
                }
            }
            return None;
        }
        acc = acc * 10 + (d as usize);
        i += 1;
    }
    proof {
        assert(t@.take(n as int) =~= t@);
        assert(spec_digits_value(t@) == acc);
        assert(acc <= usize::MAX);
    }
    Some(acc)
}

/// How a typed selection resolves against `count` candidates: a line
/// whose number is in `[0, count)` selects that candidate; anything else
/// is an invalid selection, answered by asking again.
pub open spec fn spec_select(count: int, line: Seq<char>) -> Result<int, DiscoveryError> {
    match spec_parse_index(line) {
        Some(v) => if v < count {
            Ok(v)
        } else {
            Err(DiscoveryError::InvalidSelection)
        },
        None => Err(DiscoveryError::InvalidSelection),
    }
}

/// Resolves one typed selection, per [`spec_select`].
pub fn select_candidate(count: usize, line: &str) -> (r: Result<usize, DiscoveryError>)
    ensures
        match r {
            Ok(v) => spec_select(count as int, line@) == Ok::<int, DiscoveryError>(v as int),
            Err(e) => spec_select(count as int, line@) == Err::<int, DiscoveryError>(e),
        },
{
    match parse_index(line) {
        Some(v) => if v < count {
            Ok(v)
        } else {
            Err(DiscoveryError::InvalidSelection)
        },
        None => Err(DiscoveryError::InvalidSelection),
    }
}

/// How scripted input lines resolve against the candidates: lines are
/// consumed in order until one selects a candidate in range; when none
/// does, the selection is invalid.
pub open spec fn spec_resolve_selection(cands: Seq<Seq<char>>, inputs: Seq<Seq<char>>) -> Result<
    Seq<char>,
    DiscoveryError,
>
    decreases inputs.len(),
{
    if inputs.len() == 0 {
        Err(DiscoveryError::InvalidSelection)
    } else {
        match spec_select(cands.len() as int, inputs[0]) {
            Ok(i) => Ok(cands[i]),
            Err(_) => spec_resolve_selection(cands, inputs.drop_first()),
        }
    }
}

/// How the device search resolves: no candidate in the scan text fails
/// the search; exactly one resolves at once, consuming no input; several
/// consume input lines until one selects a candidate.
pub open spec fn spec_find_device(text: Seq<char>, inputs: Seq<Seq<char>>) -> Result<
    Seq<char>,
    DiscoveryError,
> {
    let cands = spec_extract(text);
    if cands.len() == 0 {
        Err(DiscoveryError::DeviceNotFound)
    } else if cands.len() == 1 {
        Ok(cands[0])
    } else {
        spec_resolve_selection(cands, inputs)
    }
}

/// Resolves the device search, per [`spec_find_device`]: `text` is the
/// scan output, `inputs` the selection lines available to consume (in an
/// interactive run, the lines the user types, in order).
pub fn find_device(text: &str, inputs: &Vec<String>) -> (r: Result<String, DiscoveryError>)
    ensures
        match r {
            Ok(addr) => spec_find_device(text@, inputs.deep_view()) == Ok::<
                Seq<char>,
                DiscoveryError,
            >(addr@),
            Err(e) => spec_find_device(text@, inputs.deep_view()) == Err::<
                Seq<char>,
                DiscoveryError,
            >(e),
        },
{
    let cands = extract_addresses(text);
    if cands.len() == 0 {
        return Err(DiscoveryError::DeviceNotFound);
    }
    if cands.len() == 1 {
        let addr = cands[0].clone();
        return Ok(addr);
    }
    let ninputs = inputs.len();
    proof {
        assert(inputs.deep_view().skip(0) =~= inputs.deep_view());
    }
    for j in 0..ninputs
        invariant
            ninputs == inputs.len(),
            cands.deep_view() == spec_extract(text@),
            cands@.len() > 1,
            spec_resolve_selection(cands.deep_view(), inputs.deep_view())
                == spec_resolve_selection(
                cands.deep_view(),
                inputs.deep_view().skip(j as int),
            ),
    {
        proof {
            assert(inputs.deep_view().skip(j as int).len() > 0);
            assert(inputs.deep_view().skip(j as int)[0] == inputs.deep_view()[j as int]);
            assert(inputs.deep_view().skip(j as int).drop_first() =~= inputs.deep_view().skip(
                j as int + 1,
            ));
        }
        match select_candidate(cands.len(), inputs[j].as_str()) {
            Ok(i) => {
                let addr = cands[i].clone();
                return Ok(addr);
            },
            Err(_) => {},
        }
    }
    proof {
        assert(inputs.deep_view().skip(ninputs as int) =~= Seq::<Seq<char>>::empty());
    }
    Err(DiscoveryError::InvalidSelection)
}

/// How a supplied address and a scan consent resolve: a supplied address
/// is used as given; without one, an affirmative consent starts a scan,
/// and declining is a fatal missing-address error.
pub open spec fn spec_address_source(supplied: Option<Seq<char>>, scan_consent: bool) -> Result<
    Option<Seq<char>>,
    DiscoveryError,
> {
    match supplied {
        Some(a) => Ok(Some(a)),
        None => if scan_consent {
            Ok(None)
        } else {
            Err(DiscoveryError::MissingAddress)
        },
    }
}

/// Resolves the address source, per [`spec_address_source`]: `Ok(Some)`
/// is the address to use, `Ok(None)` means a scan must be run.
pub fn resolve_address_source(supplied: Option<String>, scan_consent: bool) -> (r: Result<
    Option<String>,
    DiscoveryError,
>)
    ensures
        match r {
            Ok(a) => spec_address_source(supplied.deep_view(), scan_consent) == Ok::<
                Option<Seq<char>>,
                DiscoveryError,
            >(a.deep_view()),
            Err(e) => spec_address_source(supplied.deep_view(), scan_consent) == Err::<
                Option<Seq<char>>,
                DiscoveryError,
            >(e),
        },
{
    match supplied {
        Some(a) => Ok(Some(a)),
        None => if scan_consent {
            Ok(None)
        } else {
            Err(DiscoveryError::MissingAddress)
        },
    }
}

/// How a typed yes/no answer resolves: the trimmed line `y` affirms, `n`
/// declines, anything else asks again.
pub open spec fn spec_parse_yes_no(s: Seq<char>) -> Option<bool> {
    let t = spec_trim(s);
    if t == "y"@ {
        Some(true)
    } else if t == "n"@ {
        Some(false)
    } else {
        None
    }
}

/// Resolves a typed yes/no answer, per [`spec_parse_yes_no`].
pub fn parse_yes_no(line: &str) -> (r: Option<bool>)
    ensures
        r == spec_parse_yes_no(line@),
{
    let t = trim_str(line);
    if crate::command::str_eq(t, "y") {
        Some(true)
    } else if crate::command::str_eq(t, "n") {
        Some(false)
    } else {
        None
    }
}

/// How scripted answer lines resolve: lines are consumed in order until
/// one parses as yes or no; when none does, there is no answer (an
/// interactive run asks again).
pub open spec fn spec_resolve_yes_no(inputs: Seq<Seq<char>>) -> Option<bool>
    decreases inputs.len(),
{
    if inputs.len() == 0 {
        None
    } else {
        match spec_parse_yes_no(inputs[0]) {
            Some(answer) => Some(answer),
            None => spec_resolve_yes_no(inputs.drop_first()),
        }
    }
}

/// Resolves the first usable yes/no answer of the input lines, per
/// [`spec_resolve_yes_no`].
pub fn resolve_yes_no(inputs: &Vec<String>) -> (r: Option<bool>)
    ensures
        r == spec_resolve_yes_no(inputs.deep_view()),
{
    let n = inputs.len();
    proof {
        assert(inputs.deep_view().skip(0) =~= inputs.deep_view());
    }
    for j in 0..n
        invariant
            n == inputs.len(),
            spec_resolve_yes_no(inputs.deep_view()) == spec_resolve_yes_no(
                inputs.deep_view().skip(j as int),
            ),
    {
        proof {
            assert(inputs.deep_view().skip(j as int).len() > 0);
            assert(inputs.deep_view().skip(j as int)[0] == inputs.deep_view()[j as int]);
            assert(inputs.deep_view().skip(j as int).drop_first() =~= inputs.deep_view().skip(
                j as int + 1,
            ));
        }
        if let Some(answer) = parse_yes_no(inputs[j].as_str()) {
            return Some(answer);
        }
    }
    proof {
        assert(inputs.deep_view().skip(n as int) =~= Seq::<Seq<char>>::empty());
    }
    None
}

} // verus!
