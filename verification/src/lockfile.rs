//! Lock-artifact parsing: a single forward scan over the lines of the lock
//! file, looking for the package block whose quoted name matches the target
//! library exactly, and returning the version declared in that block.
//!
//! The scan keeps a "current package matches" flag: every block-start marker
//! resets it, a matching name line sets it, and the first version line seen
//! while it is set wins — later duplicate blocks are never reached.

use vstd::prelude::*;
use crate::text::{bytes_contains, bytes_match_at, bytes_starts_with, contains_sub, matches_at, subrange_to_vec};

verus! {

pub open spec fn package_marker_lit() -> Seq<u8> {
    seq!['[' as u8, '[' as u8, 'p' as u8, 'a' as u8, 'c' as u8, 'k' as u8, 'a' as u8, 'g' as u8, 'e' as u8, ']' as u8, ']' as u8]
}

fn package_marker_bytes() -> (r: Vec<u8>)
    ensures
        r@ == package_marker_lit(),
{
    vec!['[' as u8, '[' as u8, 'p' as u8, 'a' as u8, 'c' as u8, 'k' as u8, 'a' as u8, 'g' as u8, 'e' as u8, ']' as u8, ']' as u8]
}

pub open spec fn name_prefix_lit() -> Seq<u8> {
    seq!['n' as u8, 'a' as u8, 'm' as u8, 'e' as u8, ' ' as u8, '=' as u8, ' ' as u8]
}

fn name_prefix_bytes() -> (r: Vec<u8>)
    ensures
        r@ == name_prefix_lit(),
{
    vec!['n' as u8, 'a' as u8, 'm' as u8, 'e' as u8, ' ' as u8, '=' as u8, ' ' as u8]
}

pub open spec fn version_prefix_lit() -> Seq<u8> {
    seq!['v' as u8, 'e' as u8, 'r' as u8, 's' as u8, 'i' as u8, 'o' as u8, 'n' as u8, ' ' as u8, '=' as u8, ' ' as u8]
}

fn version_prefix_bytes() -> (r: Vec<u8>)
    ensures
        r@ == version_prefix_lit(),
{
    vec!['v' as u8, 'e' as u8, 'r' as u8, 's' as u8, 'i' as u8, 'o' as u8, 'n' as u8, ' ' as u8, '=' as u8, ' ' as u8]
}

/// The library name wrapped in double quotes, so that `"http"` cannot match
/// inside `"http-body"`.
pub open spec fn quoted(name: Seq<u8>) -> Seq<u8> {
    seq!['"' as u8] + name + seq!['"' as u8]
}

/// A line's trailing carriage return, if any, is not part of the line.
pub open spec fn strip_cr(l: Seq<u8>) -> Seq<u8> {
    if l.len() > 0 && l.last() == '\r' as u8 {
        l.drop_last()
    } else {
        l
    }
}

/// Splits `s` into lines at newline bytes, with `cur` the line read so far:
/// terminators are not part of the lines, and a final terminator opens no
/// empty last line.
pub open spec fn split_lines_rec(s: Seq<u8>, cur: Seq<u8>) -> Seq<Seq<u8>>
    decreases s.len(),
{
    if s.len() == 0 {
        if cur.len() == 0 {
            Seq::empty()
        } else {
            seq![cur]
        }
    } else if s[0] == '\n' as u8 {
        seq![strip_cr(cur)] + split_lines_rec(s.drop_first(), Seq::empty())
    } else {
        split_lines_rec(s.drop_first(), cur.push(s[0]))
    }
}

pub open spec fn split_lines(s: Seq<u8>) -> Seq<Seq<u8>> {
    split_lines_rec(s, Seq::empty())
}

pub open spec fn is_ws(b: u8) -> bool {
    b == 9 || b == 10 || b == 11 || b == 12 || b == 13 || b == 32
}

pub open spec fn trim_start_ws(s: Seq<u8>) -> Seq<u8>
    decreases s.len(),
{
    if s.len() > 0 && is_ws(s[0]) {
        trim_start_ws(s.drop_first())
    } else {
        s
    }
}

pub open spec fn trim_end_ws(s: Seq<u8>) -> Seq<u8>
    decreases s.len(),
{
    if s.len() > 0 && is_ws(s.last()) {
        trim_end_ws(s.drop_last())
    } else {
        s
    }
}

pub open spec fn trim_ws(s: Seq<u8>) -> Seq<u8> {
    trim_end_ws(trim_start_ws(s))
}

/// Removes every repetition of the prefix `p` from the start of `s`.
pub open spec fn trim_prefix_rep(s: Seq<u8>, p: Seq<u8>) -> Seq<u8>
    decreases s.len(),
{
    if p.len() > 0 && p.is_prefix_of(s) {
        trim_prefix_rep(s.skip(p.len() as int), p)
    } else {
        s
    }
}

pub open spec fn trim_quote_start(s: Seq<u8>) -> Seq<u8>
    decreases s.len(),
{
    if s.len() > 0 && s[0] == '"' as u8 {
        trim_quote_start(s.drop_first())
    } else {
        s
    }
}

pub open spec fn trim_quote_end(s: Seq<u8>) -> Seq<u8>
    decreases s.len(),
{
    if s.len() > 0 && s.last() == '"' as u8 {
        trim_quote_end(s.drop_last())
    } else {
        s
    }
}

/// What a version line yields: the line with surrounding whitespace removed,
/// then every repetition of the `version = ` prefix removed, then quote
/// characters removed from both ends.
pub open spec fn extract_version_spec(line: Seq<u8>) -> Seq<u8> {
    trim_quote_end(trim_quote_start(trim_prefix_rep(trim_ws(line), version_prefix_lit())))
}

/// The forward scan over the lines of the lock artifact.
pub open spec fn lock_scan(lines: Seq<Seq<u8>>, name: Seq<u8>, flag: bool) -> Option<Seq<u8>>
    decreases lines.len(),
{
    if lines.len() == 0 {
        None
    } else {
        let line = lines[0];
        let f1 = if package_marker_lit().is_prefix_of(line) {
            false
        } else {
            flag
        };
        let f2 = if name_prefix_lit().is_prefix_of(line) && contains_sub(line, quoted(name)) {
            true
        } else {
            f1
        };
        if f2 && version_prefix_lit().is_prefix_of(line) {
            Some(extract_version_spec(line))
        } else {
            lock_scan(lines.drop_first(), name, f2)
        }
    }
}

/// The version the lock artifact `text` resolves the library `name` to, if
/// any.
pub open spec fn resolved_version_spec(text: Seq<u8>, name: Seq<u8>) -> Option<Seq<u8>> {
    lock_scan(split_lines(text), name, false)
}

/// Splits a byte text into its lines.
pub fn split_into_lines(text: &Vec<u8>) -> (r: Vec<Vec<u8>>)
    ensures
        r.deep_view() == split_lines(text@),
{
    let mut lines: Vec<Vec<u8>> = Vec::new();
    let mut cur: Vec<u8> = Vec::new();
    let mut i: usize = 0;
    proof {
        assert(text@.skip(0) =~= text@);
    }
    while i < text.len()
        invariant
            i <= text@.len(),
            split_lines(text@) == lines.deep_view() + split_lines_rec(text@.skip(i as int), cur@),
        decreases text@.len() - i,
    {
        let ghost old_lines = lines.deep_view();
        let ghost old_cur = cur@;
        let b = text[i];
        if b == '\n' as u8 {
            if cur.len() > 0 && cur[cur.len() - 1] == '\r' as u8 {
                cur.pop();
            }
            proof {
                assert(cur@ =~= strip_cr(old_cur));
            }
            lines.push(cur);
            cur = Vec::new();
            proof {
                assert(lines.deep_view() =~~= old_lines.push(strip_cr(old_cur)));
                assert(text@.skip(i as int).drop_first() =~= text@.skip(i + 1 as int));
                assert(split_lines_rec(text@.skip(i as int), old_cur) == seq![strip_cr(old_cur)]
                    + split_lines_rec(text@.skip(i + 1 as int), Seq::empty()));
                assert(old_lines + (seq![strip_cr(old_cur)] + split_lines_rec(
                    text@.skip(i + 1 as int),
                    cur@,
                )) =~~= lines.deep_view() + split_lines_rec(text@.skip(i + 1 as int), cur@));
            }
        } else {
            cur.push(b);
            proof {
                assert(text@.skip(i as int).drop_first() =~= text@.skip(i + 1 as int));
                assert(split_lines_rec(text@.skip(i as int), old_cur) == split_lines_rec(
                    text@.skip(i + 1 as int),
                    cur@,
                ));
            }
        }
        i = i + 1;
    }
    proof {
        assert(text@.skip(i as int) =~= Seq::<u8>::empty());
    }
    if cur.len() > 0 {
        let ghost old_lines = lines.deep_view();
        let ghost last_cur = cur@;
        lines.push(cur);
        proof {
            assert(lines.deep_view() =~~= old_lines.push(last_cur));
            assert(old_lines + seq![last_cur] =~~= lines.deep_view());
        }
    } else {
        proof {
            assert(lines.deep_view() + Seq::<Seq<u8>>::empty() =~~= lines.deep_view());
        }
    }
    lines
}

/// Extracts the version value from a version line, as the scan reports it.
pub fn extract_version_bytes(line: &Vec<u8>) -> (r: Vec<u8>)
    ensures
        r@ == extract_version_spec(line@),
{
    let n = line.len();
    let mut lo: usize = 0;
    let mut hi: usize = n;
    proof {
        assert(line@.subrange(0, line@.len() as int) =~= line@);
    }
    // Trim leading whitespace.
    while lo < hi && (line[lo] == 9 || line[lo] == 10 || line[lo] == 11 || line[lo] == 12
        || line[lo] == 13 || line[lo] == 32)
        invariant
            0 <= lo <= hi <= line@.len(),
            hi == line@.len(),
            trim_start_ws(line@) == trim_start_ws(line@.subrange(lo as int, hi as int)),
        decreases hi - lo,
    {
        proof {
            let w = line@.subrange(lo as int, hi as int);
            assert(is_ws(w[0]));
            assert(w.drop_first() =~= line@.subrange(lo + 1 as int, hi as int));
        }
        lo = lo + 1;
    }
    proof {
        let w = line@.subrange(lo as int, hi as int);
        assert(w.len() > 0 ==> w[0] == line@[lo as int]);
        assert(trim_start_ws(w) == w);
        assert(line@.subrange(0, line@.len() as int) =~= line@);
    }
    // Trim trailing whitespace.
    while lo < hi && (line[hi - 1] == 9 || line[hi - 1] == 10 || line[hi - 1] == 11 || line[hi - 1]
        == 12 || line[hi - 1] == 13 || line[hi - 1] == 32)
        invariant
            0 <= lo <= hi <= line@.len(),
            trim_ws(line@) == trim_end_ws(line@.subrange(lo as int, hi as int)),
        decreases hi,
    {
        proof {
            let w = line@.subrange(lo as int, hi as int);
            assert(is_ws(w.last()));
            assert(w.drop_last() =~= line@.subrange(lo as int, hi - 1 as int));
        }
        hi = hi - 1;
    }
    proof {
        let w = line@.subrange(lo as int, hi as int);
        assert(w.len() > 0 ==> w.last() == line@[hi - 1 as int]);
        assert(trim_end_ws(w) == w);
        assert(trim_ws(line@) == line@.subrange(lo as int, hi as int));
    }
    // Strip every repetition of the version prefix.
    let prefix = version_prefix_bytes();
    let plen = prefix.len();
    while hi - lo >= plen && bytes_match_at(line, &prefix, lo)
        invariant
            0 <= lo <= hi <= line@.len(),
            prefix@ == version_prefix_lit(),
            plen == prefix@.len(),
            trim_prefix_rep(trim_ws(line@), version_prefix_lit()) == trim_prefix_rep(
                line@.subrange(lo as int, hi as int),
                version_prefix_lit(),
            ),
        decreases hi - lo,
    {
        proof {
            let w = line@.subrange(lo as int, hi as int);
            assert(line@.subrange(lo as int, lo + plen as int) =~= w.subrange(0, plen as int));
            assert(w.subrange(0, plen as int) =~= w.take(plen as int));
            assert(prefix@.is_prefix_of(w));
            assert(w.skip(plen as int) =~= line@.subrange(lo + plen as int, hi as int));
        }
        lo = lo + plen;
    }
    proof {
        let w = line@.subrange(lo as int, hi as int);
        if prefix@.is_prefix_of(w) {
            assert(hi - lo >= plen);
            assert(line@.subrange(lo as int, lo + plen as int) =~= w.take(plen as int));
            assert(matches_at(line@, prefix@, lo as int));
        }
        assert(trim_prefix_rep(w, version_prefix_lit()) == w);
    }
    // Strip leading quote characters.
    while lo < hi && line[lo] == '"' as u8
        invariant
            0 <= lo <= hi <= line@.len(),
            trim_quote_start(trim_prefix_rep(trim_ws(line@), version_prefix_lit()))
                == trim_quote_start(line@.subrange(lo as int, hi as int)),
        decreases hi - lo,
    {
        proof {
            let w = line@.subrange(lo as int, hi as int);
            assert(w[0] == '"' as u8);
            assert(w.drop_first() =~= line@.subrange(lo + 1 as int, hi as int));
        }
        lo = lo + 1;
    }
    proof {
        let w = line@.subrange(lo as int, hi as int);
        assert(w.len() > 0 ==> w[0] == line@[lo as int]);
        assert(trim_quote_start(w) == w);
    }
    // Strip trailing quote characters.
    while lo < hi && line[hi - 1] == '"' as u8
        invariant
            0 <= lo <= hi <= line@.len(),
            extract_version_spec(line@) == trim_quote_end(line@.subrange(lo as int, hi as int)),
        decreases hi,
    {
        proof {
            let w = line@.subrange(lo as int, hi as int);
            assert(w.last() == '"' as u8);
            assert(w.drop_last() =~= line@.subrange(lo as int, hi - 1 as int));
        }
        hi = hi - 1;
    }
    proof {
        let w = line@.subrange(lo as int, hi as int);
        assert(w.len() > 0 ==> w.last() == line@[hi - 1 as int]);
        assert(trim_quote_end(w) == w);
    }
    subrange_to_vec(line, lo, hi)
}

/// Scans the lock artifact `text` for the block whose quoted name matches
/// `name` exactly, and returns the version declared in that block; `None`
/// when the full scan finds no match.
pub fn resolved_version_from_lock(text: &Vec<u8>, name: &Vec<u8>) -> (r: Option<Vec<u8>>)
    ensures
        match r {
            Some(v) => resolved_version_spec(text@, name@) == Some(v@),
            None => resolved_version_spec(text@, name@) is None,
        },
{
    let lines = split_into_lines(text);
    let marker = package_marker_bytes();
    let nprefix = name_prefix_bytes();
    let vprefix = version_prefix_bytes();
    let mut q: Vec<u8> = Vec::new();
    q.push('"' as u8);
    q.extend_from_slice(name.as_slice());
    q.push('"' as u8);
    proof {
        assert(q@ =~= quoted(name@));
    }
    let mut flag = false;
    let mut k: usize = 0;
    proof {
        assert(lines.deep_view().skip(0) =~~= lines.deep_view());
    }
    while k < lines.len()
        invariant
            k <= lines@.len(),
            lines@.len() == lines.deep_view().len(),
            marker@ == package_marker_lit(),
            nprefix@ == name_prefix_lit(),
            vprefix@ == version_prefix_lit(),
            q@ == quoted(name@),
            resolved_version_spec(text@, name@) == lock_scan(
                lines.deep_view().skip(k as int),
                name@,
                flag,
            ),
        decreases lines@.len() - k,
    {
        let line = &lines[k];
        proof {
            assert(lines.deep_view()[k as int] == lines@[k as int]@);
            assert(lines.deep_view().skip(k as int)[0] == lines.deep_view()[k as int]);
        }
        if bytes_starts_with(line, &marker) {
            flag = false;
        }
        if bytes_starts_with(line, &nprefix) && bytes_contains(line, &q) {
            flag = true;
        }
        if flag && bytes_starts_with(line, &vprefix) {
            let v = extract_version_bytes(line);
            return Some(v);
        }
        proof {
            assert(lines.deep_view().skip(k as int).drop_first() =~~= lines.deep_view().skip(
                k + 1 as int,
            ));
        }
        k = k + 1;
    }
    proof {
        assert(lines.deep_view().skip(k as int) =~~= Seq::<Seq<u8>>::empty());
    }
    None
}

} // verus!
