//! Semantic-version strings: parsing into numeric triples, numeric tuple
//! comparison, and the choice between the lightweight check subcommand and the
//! full build subcommand for a given toolchain version.

use vstd::prelude::*;

verus! {

/// Oldest toolchain release whose build tool offers the lightweight check
/// subcommand; older releases must use the full build subcommand.
pub const CHECK_THRESHOLD_MAJOR: u64 = 1;

pub const CHECK_THRESHOLD_MINOR: u64 = 16;

pub const CHECK_THRESHOLD_PATCH: u64 = 0;

/// The subcommand a probe runs: a full build for toolchains that predate the
/// lightweight check subcommand, the lightweight check for the rest.
#[derive(Clone, Copy, PartialEq, Eq, Structural, Debug)]
pub enum BuildCommand {
    FullBuild,
    LightCheck,
}

pub open spec fn is_digit(b: u8) -> bool {
    '0' as u8 <= b <= '9' as u8
}

/// A non-empty run of decimal digits.
pub open spec fn all_digits(s: Seq<u8>) -> bool {
    s.len() > 0 && forall|i: int| 0 <= i < s.len() ==> is_digit(s[i])
}

pub open spec fn digit_of(b: u8) -> nat {
    if is_digit(b) {
        (b - '0' as u8) as nat
    } else {
        0
    }
}

/// Value of a run of decimal digits, most significant first.
pub open spec fn digits_val(s: Seq<u8>) -> nat
    decreases s.len(),
{
    if s.len() == 0 {
        0
    } else {
        digits_val(s.drop_last()) * 10 + digit_of(s.last())
    }
}

/// Splits `s` on `'.'`, keeping empty components, with `cur` the component
/// read so far.
pub open spec fn split_dots_rec(s: Seq<u8>, cur: Seq<u8>) -> Seq<Seq<u8>>
    decreases s.len(),
{
    if s.len() == 0 {
        seq![cur]
    } else if s[0] == '.' as u8 {
        seq![cur] + split_dots_rec(s.drop_first(), Seq::empty())
    } else {
        split_dots_rec(s.drop_first(), cur.push(s[0]))
    }
}

pub open spec fn split_dots(s: Seq<u8>) -> Seq<Seq<u8>> {
    split_dots_rec(s, Seq::empty())
}

/// A version string parses when it has exactly three dot-separated components,
/// each a non-empty run of decimal digits; the result is the numeric
/// (major, minor, patch) triple.
pub open spec fn parse_semver(s: Seq<u8>) -> Option<(nat, nat, nat)> {
    let ps = split_dots(s);
    if ps.len() == 3 && all_digits(ps[0]) && all_digits(ps[1]) && all_digits(ps[2]) {
        Some((digits_val(ps[0]), digits_val(ps[1]), digits_val(ps[2])))
    } else {
        None
    }
}

/// Each component of the triple fits the machine word the executable parser
/// returns.
pub open spec fn semver_fits(t: (nat, nat, nat)) -> bool {
    t.0 <= u64::MAX && t.1 <= u64::MAX && t.2 <= u64::MAX
}

/// Numeric (major, minor, patch) tuple order, not lexical string order.
pub open spec fn triple_lt(a: (nat, nat, nat), b: (nat, nat, nat)) -> bool {
    ||| a.0 < b.0
    ||| (a.0 == b.0 && a.1 < b.1)
    ||| (a.0 == b.0 && a.1 == b.1 && a.2 < b.2)
}

pub open spec fn check_threshold() -> (nat, nat, nat) {
    (CHECK_THRESHOLD_MAJOR as nat, CHECK_THRESHOLD_MINOR as nat, CHECK_THRESHOLD_PATCH as nat)
}

/// The subcommand for a toolchain version: the full build strictly below the
/// threshold, the lightweight check at the threshold and above.
pub open spec fn command_for(t: (nat, nat, nat)) -> BuildCommand {
    if triple_lt(t, check_threshold()) {
        BuildCommand::FullBuild
    } else {
        BuildCommand::LightCheck
    }
}

proof fn lemma_digits_val_mono(s: Seq<u8>, i: int, j: int)
    requires
        0 <= i <= j <= s.len(),
    ensures
        digits_val(s.take(i)) <= digits_val(s.take(j)),
    decreases j - i,
{
    if i < j {
        lemma_digits_val_mono(s, i, j - 1);
        assert(s.take(j).drop_last() =~= s.take(j - 1));
        assert(digits_val(s.take(j)) == digits_val(s.take(j - 1)) * 10 + digit_of(s.take(j).last()));
    }
}

/// Numeric value of one dot-separated component, when it is a non-empty run
/// of digits whose value fits.
pub fn component_value(c: &Vec<u8>) -> (r: Option<u64>)
    ensures
        r is Some <==> (all_digits(c@) && digits_val(c@) <= u64::MAX),
        r is Some ==> r->0 as nat == digits_val(c@),
{
    if c.len() == 0 {
        return None;
    }
    let mut val: u64 = 0;
    let mut i: usize = 0;
    while i < c.len()
        invariant
            0 < c@.len(),
            i <= c@.len(),
            forall|j: int| 0 <= j < i ==> is_digit(c@[j]),
            val as nat == digits_val(c@.take(i as int)),
        decreases c@.len() - i,
    {
        let b = c[i];
        if b < '0' as u8 || b > '9' as u8 {
            return None;
        }
        let d = (b - '0' as u8) as u64;
        proof {
            assert(c@.take(i + 1 as int).drop_last() =~= c@.take(i as int));
            assert(c@.take(i + 1 as int).last() == c@[i as int]);
            vstd::arithmetic::div_mod::lemma_fundamental_div_mod((u64::MAX - d) as int, 10);
        }
        if val > (u64::MAX - d) / 10 {
            proof {
                assert(digits_val(c@.take(i + 1 as int)) > u64::MAX);
                lemma_digits_val_mono(c@, i + 1 as int, c@.len() as int);
                assert(c@.take(c@.len() as int) =~= c@);
            }
            return None;
        }
        val = val * 10 + d;
        i = i + 1;
    }
    proof {
        assert(c@.take(c@.len() as int) =~= c@);
    }
    Some(val)
}

/// Splits a byte string on `'.'`, keeping empty components.
pub fn split_on_dots(s: &Vec<u8>) -> (r: Vec<Vec<u8>>)
    ensures
        r.deep_view() == split_dots(s@),
{
    let mut parts: Vec<Vec<u8>> = Vec::new();
    let mut cur: Vec<u8> = Vec::new();
    let mut i: usize = 0;
    proof {
        assert(s@.skip(0) =~= s@);
    }
    while i < s.len()
        invariant
            i <= s@.len(),
            split_dots(s@) == parts.deep_view() + split_dots_rec(s@.skip(i as int), cur@),
        decreases s@.len() - i,
    {
        let ghost old_parts = parts.deep_view();
        let ghost old_cur = cur@;
        let b = s[i];
        if b == '.' as u8 {
            parts.push(cur);
            cur = Vec::new();
            proof {
                assert(parts.deep_view() =~~= old_parts.push(old_cur));
                assert(s@.skip(i as int).drop_first() =~= s@.skip(i + 1 as int));
                assert(split_dots_rec(s@.skip(i as int), old_cur) == seq![old_cur]
                    + split_dots_rec(s@.skip(i + 1 as int), Seq::empty()));
                assert(old_parts + (seq![old_cur] + split_dots_rec(s@.skip(i + 1 as int), cur@))
                    =~~= parts.deep_view() + split_dots_rec(s@.skip(i + 1 as int), cur@));
            }
        } else {
            cur.push(b);
            proof {
                assert(s@.skip(i as int).drop_first() =~= s@.skip(i + 1 as int));
                assert(split_dots_rec(s@.skip(i as int), old_cur) == split_dots_rec(
                    s@.skip(i + 1 as int),
                    cur@,
                ));
            }
        }
        i = i + 1;
    }
    let ghost old_parts = parts.deep_view();
    let ghost last_cur = cur@;
    parts.push(cur);
    proof {
        assert(s@.skip(i as int) =~= Seq::<u8>::empty());
        assert(split_dots_rec(s@.skip(i as int), last_cur) == seq![last_cur]);
        assert(parts.deep_view() =~~= old_parts.push(last_cur));
        assert(old_parts + seq![last_cur] =~~= parts.deep_view());
    }
    parts
}

/// Parses a semantic-version string into its numeric (major, minor, patch)
/// triple; `None` when the string is not three dot-separated runs of digits,
/// or a component does not fit.
pub fn parse_version(s: &Vec<u8>) -> (r: Option<(u64, u64, u64)>)
    ensures
        r is Some <==> (parse_semver(s@) is Some && semver_fits(parse_semver(s@)->0)),
        r is Some ==> parse_semver(s@) == Some(
            ((r->0).0 as nat, (r->0).1 as nat, (r->0).2 as nat),
        ),
{
    let parts = split_on_dots(s);
    if parts.len() != 3 {
        return None;
    }
    let v0 = component_value(&parts[0]);
    let v1 = component_value(&parts[1]);
    let v2 = component_value(&parts[2]);
    proof {
        assert(parts.deep_view()[0] == parts@[0]@);
        assert(parts.deep_view()[1] == parts@[1]@);
        assert(parts.deep_view()[2] == parts@[2]@);
    }
    match (v0, v1, v2) {
        (Some(a), Some(b), Some(c)) => Some((a, b, c)),
        _ => None,
    }
}

/// Chooses the probe subcommand for a parsed toolchain version: the
/// lightweight check from the threshold release on (inclusive), the full
/// build for anything older.
pub fn choose_build_command(major: u64, minor: u64, patch: u64) -> (r: BuildCommand)
    ensures
        r == command_for((major as nat, minor as nat, patch as nat)),
{
    if major < CHECK_THRESHOLD_MAJOR || (major == CHECK_THRESHOLD_MAJOR && (minor
        < CHECK_THRESHOLD_MINOR || (minor == CHECK_THRESHOLD_MINOR && patch
        < CHECK_THRESHOLD_PATCH))) {
        BuildCommand::FullBuild
    } else {
        BuildCommand::LightCheck
    }
}

/// The ordered list of candidate toolchain releases, oldest first.
pub open spec fn rust_versions_spec() -> Seq<Seq<u8>> {
    seq![
        seq!['1' as u8, '.' as u8, '0' as u8, '.' as u8, '0' as u8],
        seq!['1' as u8, '.' as u8, '1' as u8, '0' as u8, '.' as u8, '0' as u8],
        seq!['1' as u8, '.' as u8, '2' as u8, '0' as u8, '.' as u8, '0' as u8],
        seq!['1' as u8, '.' as u8, '3' as u8, '0' as u8, '.' as u8, '0' as u8],
        seq!['1' as u8, '.' as u8, '4' as u8, '0' as u8, '.' as u8, '0' as u8],
        seq!['1' as u8, '.' as u8, '5' as u8, '0' as u8, '.' as u8, '0' as u8],
        seq!['1' as u8, '.' as u8, '6' as u8, '0' as u8, '.' as u8, '0' as u8],
        seq!['1' as u8, '.' as u8, '7' as u8, '0' as u8, '.' as u8, '0' as u8],
        seq!['1' as u8, '.' as u8, '8' as u8, '0' as u8, '.' as u8, '0' as u8],
        seq!['1' as u8, '.' as u8, '8' as u8, '5' as u8, '.' as u8, '0' as u8],
    ]
}

/// Holds when every entry parses as a semantic version and the entries stand
/// in strictly ascending numeric order: the invariant of the search space.
pub open spec fn strictly_ascending_semver(vs: Seq<Seq<u8>>) -> bool {
    &&& forall|i: int| 0 <= i < vs.len() ==> parse_semver(#[trigger] vs[i]) is Some
    &&& forall|i: int|
        0 <= i && i + 1 < vs.len() ==> triple_lt(
            parse_semver(#[trigger] vs[i])->0,
            parse_semver(vs[i + 1])->0,
        )
}

proof fn lemma_rust_versions_parse()
    ensures
        parse_semver(rust_versions_spec()[0]) == Some((1nat, 0nat, 0nat)),
        parse_semver(rust_versions_spec()[1]) == Some((1nat, 10nat, 0nat)),
        parse_semver(rust_versions_spec()[2]) == Some((1nat, 20nat, 0nat)),
        parse_semver(rust_versions_spec()[3]) == Some((1nat, 30nat, 0nat)),
        parse_semver(rust_versions_spec()[4]) == Some((1nat, 40nat, 0nat)),
        parse_semver(rust_versions_spec()[5]) == Some((1nat, 50nat, 0nat)),
        parse_semver(rust_versions_spec()[6]) == Some((1nat, 60nat, 0nat)),
        parse_semver(rust_versions_spec()[7]) == Some((1nat, 70nat, 0nat)),
        parse_semver(rust_versions_spec()[8]) == Some((1nat, 80nat, 0nat)),
        parse_semver(rust_versions_spec()[9]) == Some((1nat, 85nat, 0nat)),
{
    reveal_with_fuel(split_dots_rec, 8);
    reveal_with_fuel(digits_val, 4);
    assert(parse_semver(rust_versions_spec()[0]) == Some((1nat, 0nat, 0nat)));
    assert(parse_semver(rust_versions_spec()[1]) == Some((1nat, 10nat, 0nat)));
    assert(parse_semver(rust_versions_spec()[2]) == Some((1nat, 20nat, 0nat)));
    assert(parse_semver(rust_versions_spec()[3]) == Some((1nat, 30nat, 0nat)));
    assert(parse_semver(rust_versions_spec()[4]) == Some((1nat, 40nat, 0nat)));
    assert(parse_semver(rust_versions_spec()[5]) == Some((1nat, 50nat, 0nat)));
    assert(parse_semver(rust_versions_spec()[6]) == Some((1nat, 60nat, 0nat)));
    assert(parse_semver(rust_versions_spec()[7]) == Some((1nat, 70nat, 0nat)));
    assert(parse_semver(rust_versions_spec()[8]) == Some((1nat, 80nat, 0nat)));
    assert(parse_semver(rust_versions_spec()[9]) == Some((1nat, 85nat, 0nat)));
}

/// The fixed candidate list is a well-formed search space.
pub proof fn lemma_rust_versions_ascending()
    ensures
        strictly_ascending_semver(rust_versions_spec()),
{
    lemma_rust_versions_parse();
    let vs = rust_versions_spec();
    assert forall|i: int| 0 <= i < vs.len() implies parse_semver(#[trigger] vs[i]) is Some by {
        if i == 0 {
            assert(parse_semver(vs[0]) is Some);
        } else if i == 1 {
            assert(parse_semver(vs[1]) is Some);
        } else if i == 2 {
            assert(parse_semver(vs[2]) is Some);
        } else if i == 3 {
            assert(parse_semver(vs[3]) is Some);
        } else if i == 4 {
            assert(parse_semver(vs[4]) is Some);
        } else if i == 5 {
            assert(parse_semver(vs[5]) is Some);
        } else if i == 6 {
            assert(parse_semver(vs[6]) is Some);
        } else if i == 7 {
            assert(parse_semver(vs[7]) is Some);
        } else if i == 8 {
            assert(parse_semver(vs[8]) is Some);
        } else {
            assert(parse_semver(vs[9]) is Some);
        }
    }
    assert forall|i: int| 0 <= i && i + 1 < vs.len() implies triple_lt(
        parse_semver(#[trigger] vs[i])->0,
        parse_semver(vs[i + 1])->0,
    ) by {
        if i == 0 {
            assert(triple_lt(parse_semver(vs[0])->0, parse_semver(vs[1])->0));
        } else if i == 1 {
            assert(triple_lt(parse_semver(vs[1])->0, parse_semver(vs[2])->0));
        } else if i == 2 {
            assert(triple_lt(parse_semver(vs[2])->0, parse_semver(vs[3])->0));
        } else if i == 3 {
            assert(triple_lt(parse_semver(vs[3])->0, parse_semver(vs[4])->0));
        } else if i == 4 {
            assert(triple_lt(parse_semver(vs[4])->0, parse_semver(vs[5])->0));
        } else if i == 5 {
            assert(triple_lt(parse_semver(vs[5])->0, parse_semver(vs[6])->0));
        } else if i == 6 {
            assert(triple_lt(parse_semver(vs[6])->0, parse_semver(vs[7])->0));
        } else if i == 7 {
            assert(triple_lt(parse_semver(vs[7])->0, parse_semver(vs[8])->0));
        } else {
            assert(triple_lt(parse_semver(vs[8])->0, parse_semver(vs[9])->0));
        }
    }
}

/// The ordered list of candidate toolchain releases, oldest first; every
/// entry parses as a semantic version and the list is strictly ascending.
pub fn get_rust_versions() -> (r: Vec<Vec<u8>>)
    ensures
        r.deep_view() == rust_versions_spec(),
        strictly_ascending_semver(r.deep_view()),
{
    let mut versions: Vec<Vec<u8>> = Vec::new();
    versions.push(vec!['1' as u8, '.' as u8, '0' as u8, '.' as u8, '0' as u8]);
    versions.push(vec!['1' as u8, '.' as u8, '1' as u8, '0' as u8, '.' as u8, '0' as u8]);
    versions.push(vec!['1' as u8, '.' as u8, '2' as u8, '0' as u8, '.' as u8, '0' as u8]);
    versions.push(vec!['1' as u8, '.' as u8, '3' as u8, '0' as u8, '.' as u8, '0' as u8]);
    versions.push(vec!['1' as u8, '.' as u8, '4' as u8, '0' as u8, '.' as u8, '0' as u8]);
    versions.push(vec!['1' as u8, '.' as u8, '5' as u8, '0' as u8, '.' as u8, '0' as u8]);
    versions.push(vec!['1' as u8, '.' as u8, '6' as u8, '0' as u8, '.' as u8, '0' as u8]);
    versions.push(vec!['1' as u8, '.' as u8, '7' as u8, '0' as u8, '.' as u8, '0' as u8]);
    versions.push(vec!['1' as u8, '.' as u8, '8' as u8, '0' as u8, '.' as u8, '0' as u8]);
    versions.push(vec!['1' as u8, '.' as u8, '8' as u8, '5' as u8, '.' as u8, '0' as u8]);
    proof {
        assert(versions.deep_view() =~~= rust_versions_spec());
        lemma_rust_versions_ascending();
    }
    versions
}

/// Parses a version string and chooses its probe subcommand; `None` when the
/// string does not parse as a semantic version that fits.
pub fn command_for_version(s: &Vec<u8>) -> (r: Option<BuildCommand>)
    ensures
        r is Some <==> (parse_semver(s@) is Some && semver_fits(parse_semver(s@)->0)),
        r is Some ==> r->0 == command_for(parse_semver(s@)->0),
{
    match parse_version(s) {
        Some((major, minor, patch)) => Some(choose_build_command(major, minor, patch)),
        None => None,
    }
}

} // verus!
