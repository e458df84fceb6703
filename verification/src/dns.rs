//! Matching of DNS name patterns against hostnames.
use vstd::prelude::*;
use vstd::slice::slice_subrange;

use crate::text::{characters, equal, find, is_first};

verus! {

/// Whether a pattern is that of an internationalized name in its ASCII form.
pub open spec fn is_internationalized(pattern: Seq<char>) -> bool {
    seq!['x', 'n', '-', '-'].is_prefix_of(pattern)
}

/// Whether `pattern` reads `prefix*suffix.rest`, where the wildcard is the first of the pattern,
/// stands in its first label, and is followed by at least two dots. `tail` is `.rest`.
pub open spec fn splits(
    pattern: Seq<char>,
    prefix: Seq<char>,
    suffix: Seq<char>,
    tail: Seq<char>,
) -> bool {
    &&& pattern == prefix + seq!['*'] + suffix + tail
    &&& !prefix.contains('*')
    &&& !prefix.contains('.')
    &&& !suffix.contains('.')
    &&& tail.len() > 0
    &&& tail[0] == '.'
    &&& tail.skip(1).contains('.')
}

/// Whether the wildcard of a pattern counts as one. Where it does not, the pattern only stands for
/// itself.
pub open spec fn has_wildcard(pattern: Seq<char>, is_ip: bool) -> bool {
    &&& !is_ip
    &&& !is_internationalized(pattern)
    &&& exists|prefix: Seq<char>, suffix: Seq<char>, tail: Seq<char>|
        splits(pattern, prefix, suffix, tail)
}

/// Whether `hostname` is the pattern with `middle`, which stays within one label, in place of the
/// wildcard.
pub open spec fn fills(
    hostname: Seq<char>,
    prefix: Seq<char>,
    middle: Seq<char>,
    suffix: Seq<char>,
    tail: Seq<char>,
) -> bool {
    &&& !middle.contains('.')
    &&& hostname == prefix + middle + suffix + tail
}

/// Whether some characters of one label, put in place of the wildcard, turn the pattern into the
/// hostname.
pub open spec fn covers(pattern: Seq<char>, hostname: Seq<char>) -> bool {
    exists|prefix: Seq<char>, middle: Seq<char>, suffix: Seq<char>, tail: Seq<char>|
        #![trigger splits(pattern, prefix, suffix, tail), fills(hostname, prefix, middle, suffix, tail)]
        splits(pattern, prefix, suffix, tail) && fills(hostname, prefix, middle, suffix, tail)
}

/// A name without its trailing dot, if it has one.
pub open spec fn normalized(name: Seq<char>) -> Seq<char> {
    if name.len() > 0 && name.last() == '.' {
        name.drop_last()
    } else {
        name
    }
}

/// What the wildcard rules say of a pattern and a hostname: nothing (`None`) where they do not
/// apply, otherwise whether the pattern covers the hostname.
pub open spec fn wildcard_verdict(
    pattern: Seq<char>,
    hostname: Seq<char>,
    is_ip: bool,
) -> Option<bool> {
    if has_wildcard(pattern, is_ip) && hostname.contains('.') {
        Some(covers(pattern, hostname))
    } else {
        None
    }
}

/// Whether a DNS name pattern matches a hostname.
pub open spec fn dns_match(pattern: Seq<char>, hostname: Seq<char>, is_ip: bool) -> bool {
    match wildcard_verdict(normalized(pattern), normalized(hostname), is_ip) {
        Some(covered) => covered,
        None => normalized(pattern) == normalized(hostname),
    }
}

/// A pattern splits in one way at most.
proof fn lemma_split_unique(
    pattern: Seq<char>,
    prefix: Seq<char>,
    suffix: Seq<char>,
    tail: Seq<char>,
    star: int,
    dot: int,
)
    requires
        splits(pattern, prefix, suffix, tail),
        is_first(pattern, '*', star),
        is_first(pattern, '.', dot),
    ensures
        star < dot,
        prefix == pattern.take(star),
        suffix == pattern.subrange(star + 1, dot),
        tail == pattern.skip(dot),
{
    let at: int = prefix.len() as int;
    let end: int = at + 1 + suffix.len();
    assert(pattern[at] == '*');
    assert(pattern[end] == tail[0]);
    if star < at {
        assert(prefix[star] == '*');
    }
    assert(star == at);
    if dot < end {
        if dot < at {
            assert(prefix[dot] == '.');
        } else if dot > at {
            assert(suffix[dot - at - 1] == '.');
        }
    }
    assert(dot == end);
    assert(prefix =~= pattern.take(star));
    assert(suffix =~= pattern.subrange(star + 1, dot));
    assert(tail =~= pattern.skip(dot));
}

/// A pattern whose first wildcard stands before its first dot, with a dot after that one, splits
/// at these two places.
proof fn lemma_split_exists(pattern: Seq<char>, star: int, dot: int)
    requires
        is_first(pattern, '*', star),
        is_first(pattern, '.', dot),
        star < dot,
        pattern.skip(dot + 1).contains('.'),
    ensures
        splits(
            pattern,
            pattern.take(star),
            pattern.subrange(star + 1, dot),
            pattern.skip(dot),
        ),
{
    let prefix = pattern.take(star);
    let suffix = pattern.subrange(star + 1, dot);
    let tail = pattern.skip(dot);
    assert(pattern =~= prefix + seq!['*'] + suffix + tail);
    assert forall|i: int| 0 <= i < prefix.len() implies prefix[i] != '*' && prefix[i] != '.' by {
        assert(prefix[i] == pattern[i]);
    }
    assert forall|i: int| 0 <= i < suffix.len() implies suffix[i] != '.' by {
        assert(suffix[i] == pattern[star + 1 + i]);
    }
    assert(tail.skip(1) =~= pattern.skip(dot + 1));
}

/// Where a hostname fills a pattern, its first label is the pattern's with the wildcard filled,
/// and the rest is the pattern's.
proof fn lemma_fill_shape(
    hostname: Seq<char>,
    prefix: Seq<char>,
    middle: Seq<char>,
    suffix: Seq<char>,
    tail: Seq<char>,
    label_end: int,
)
    requires
        fills(hostname, prefix, middle, suffix, tail),
        !prefix.contains('.'),
        !suffix.contains('.'),
        tail.len() > 0,
        tail[0] == '.',
        is_first(hostname, '.', label_end),
    ensures
        label_end == prefix.len() + middle.len() + suffix.len(),
        hostname.skip(label_end) == tail,
        hostname.take(prefix.len() as int) == prefix,
        hostname.subrange(label_end - suffix.len(), label_end) == suffix,
{
    let end: int = (prefix.len() + middle.len() + suffix.len()) as int;
    assert(hostname[end] == tail[0]);
    if label_end < end {
        if label_end < prefix.len() {
            assert(prefix[label_end] == '.');
        } else if label_end < prefix.len() + middle.len() {
            assert(middle[label_end - prefix.len()] == '.');
        } else {
            assert(suffix[label_end - prefix.len() - middle.len()] == '.');
        }
    }
    assert(hostname.skip(label_end) =~= tail);
    assert(hostname.take(prefix.len() as int) =~= prefix);
    assert(hostname.subrange(label_end - suffix.len(), label_end) =~= suffix);
}

/// A name that splits has a first wildcard, and a first dot with another dot behind it.
proof fn lemma_split_has_marks(
    pattern: Seq<char>,
    prefix: Seq<char>,
    suffix: Seq<char>,
    tail: Seq<char>,
)
    requires
        splits(pattern, prefix, suffix, tail),
    ensures
        is_first(pattern, '*', prefix.len() as int),
        is_first(pattern, '.', (prefix.len() + 1 + suffix.len()) as int),
        pattern.skip((prefix.len() + 1 + suffix.len()) as int + 1).contains('.'),
{
    let at: int = prefix.len() as int;
    let end: int = at + 1 + suffix.len();
    assert(pattern[at] == '*');
    assert(pattern[end] == tail[0]);
    assert forall|j: int| 0 <= j < at implies pattern[j] != '*' by {
        assert(pattern[j] == prefix[j]);
        assert(prefix.contains(prefix[j]));
    }
    assert forall|j: int| 0 <= j < end implies pattern[j] != '.' by {
        if j < at {
            assert(pattern[j] == prefix[j]);
            assert(prefix.contains(prefix[j]));
        } else if j > at {
            assert(pattern[j] == suffix[j - at - 1]);
            assert(suffix.contains(suffix[j - at - 1]));
        }
    }
    assert(pattern.skip(end + 1) =~= tail.skip(1));
}

/// A name without a wildcard, or without a dot, does not split.
proof fn lemma_no_split(pattern: Seq<char>)
    requires
        !pattern.contains('*') || !pattern.contains('.'),
    ensures
        !exists|prefix: Seq<char>, suffix: Seq<char>, tail: Seq<char>|
            splits(pattern, prefix, suffix, tail),
{
    if exists|prefix: Seq<char>, suffix: Seq<char>, tail: Seq<char>|
        splits(pattern, prefix, suffix, tail) {
        let (prefix, suffix, tail) = choose|prefix: Seq<char>, suffix: Seq<char>, tail: Seq<char>|
            splits(pattern, prefix, suffix, tail);
        lemma_split_has_marks(pattern, prefix, suffix, tail);
    }
}

/// Whether a pattern is that of an internationalized name.
fn internationalized(pattern: &[char]) -> (yes: bool)
    ensures
        yes == is_internationalized(pattern@),
{
    let ghost mark = seq!['x', 'n', '-', '-'];
    let yes = pattern.len() >= 4 && pattern[0] == 'x' && pattern[1] == 'n' && pattern[2] == '-'
        && pattern[3] == '-';
    proof {
        if yes {
            assert(mark =~= pattern@.subrange(0, 4));
        } else if is_internationalized(pattern@) {
            let start = pattern@.subrange(0, 4);
            assert(start[0] == 'x' && start[1] == 'n' && start[2] == '-' && start[3] == '-');
        }
    }
    yes
}

/// Whether a hostname, whose first label ends at `label_end`, fills a split pattern.
fn fill_at(
    hostname: &[char],
    label_end: usize,
    prefix: &[char],
    suffix: &[char],
    tail: &[char],
) -> (filled: bool)
    requires
        is_first(hostname@, '.', label_end as int),
        !prefix@.contains('.'),
        !suffix@.contains('.'),
        tail@.len() > 0,
        tail@[0] == '.',
    ensures
        filled == exists|middle: Seq<char>| fills(hostname@, prefix@, middle, suffix@, tail@),
{
    proof {
        if exists|middle: Seq<char>| fills(hostname@, prefix@, middle, suffix@, tail@) {
            let middle = choose|middle: Seq<char>|
                fills(hostname@, prefix@, middle, suffix@, tail@);
            lemma_fill_shape(hostname@, prefix@, middle, suffix@, tail@, label_end as int);
            assert(hostname@.subrange(0, prefix@.len() as int) =~= prefix@);
        }
    }
    // check that the non-wildcard parts are identical
    let hostname_tail = slice_subrange(hostname, label_end, hostname.len());
    assert(hostname_tail@ =~= hostname@.skip(label_end as int));
    if !equal(tail, hostname_tail) {
        return false;
    }
    // check the prefix of the first label
    if label_end < prefix.len() || !equal(slice_subrange(hostname, 0, prefix.len()), prefix) {
        return false;
    }
    // and the suffix
    if label_end - prefix.len() < suffix.len() || !equal(
        slice_subrange(hostname, label_end - suffix.len(), label_end),
        suffix,
    ) {
        return false;
    }
    proof {
        let middle = hostname@.subrange(prefix@.len() as int, label_end - suffix@.len());
        assert(hostname@ =~= prefix@ + middle + suffix@ + tail@) by {
            assert(hostname@ =~= hostname@.subrange(0, prefix@.len() as int) + middle
                + hostname@.subrange(label_end - suffix@.len(), label_end as int) + hostname@.skip(
                label_end as int,
            ));
        }
        assert forall|i: int| 0 <= i < middle.len() implies middle[i] != '.' by {
            assert(middle[i] == hostname@[prefix@.len() + i]);
        }
        assert(fills(hostname@, prefix@, middle, suffix@, tail@));
    }
    true
}

/// A pattern splits exactly where its first wildcard stands before its first dot and another dot
/// follows that one.
proof fn lemma_split_iff(pattern: Seq<char>, star: int, dot: int)
    requires
        is_first(pattern, '*', star),
        is_first(pattern, '.', dot),
    ensures
        (exists|prefix: Seq<char>, suffix: Seq<char>, tail: Seq<char>|
            splits(pattern, prefix, suffix, tail)) <==> (star < dot && pattern.skip(
            dot + 1,
        ).contains('.')),
{
    if exists|prefix: Seq<char>, suffix: Seq<char>, tail: Seq<char>|
        splits(pattern, prefix, suffix, tail) {
        let (prefix, suffix, tail) = choose|prefix: Seq<char>, suffix: Seq<char>, tail: Seq<char>|
            splits(pattern, prefix, suffix, tail);
        lemma_split_has_marks(pattern, prefix, suffix, tail);
        lemma_split_unique(pattern, prefix, suffix, tail, star, dot);
    }
    if star < dot && pattern.skip(dot + 1).contains('.') {
        lemma_split_exists(pattern, star, dot);
    }
}

/// A pattern that splits covers the hostnames that fill that split, and no others.
proof fn lemma_covers_iff(
    pattern: Seq<char>,
    hostname: Seq<char>,
    prefix: Seq<char>,
    suffix: Seq<char>,
    tail: Seq<char>,
)
    requires
        splits(pattern, prefix, suffix, tail),
    ensures
        covers(pattern, hostname) <==> exists|middle: Seq<char>|
            fills(hostname, prefix, middle, suffix, tail),
{
    if covers(pattern, hostname) {
        let (prefix1, middle, suffix1, tail1) = choose|
            prefix1: Seq<char>,
            middle: Seq<char>,
            suffix1: Seq<char>,
            tail1: Seq<char>,
        |
            #![trigger splits(pattern, prefix1, suffix1, tail1), fills(hostname, prefix1, middle, suffix1, tail1)]
            splits(pattern, prefix1, suffix1, tail1) && fills(
                hostname,
                prefix1,
                middle,
                suffix1,
                tail1,
            );
        lemma_split_has_marks(pattern, prefix, suffix, tail);
        let star: int = prefix.len() as int;
        let dot: int = star + 1 + suffix.len();
        lemma_split_unique(pattern, prefix, suffix, tail, star, dot);
        lemma_split_unique(pattern, prefix1, suffix1, tail1, star, dot);
        assert(fills(hostname, prefix, middle, suffix, tail));
    }
}

/// The wildcard rules on the characters of the two names.
fn wildcard(pattern: &[char], hostname: &[char], is_ip: bool) -> (verdict: Option<bool>)
    ensures
        verdict == wildcard_verdict(pattern@, hostname@, is_ip),
{
    // IP addresses and internationalized domains are not involved in wildcards
    if is_ip || internationalized(pattern) {
        return None;
    }
    proof {
        if !pattern@.contains('*') || !pattern@.contains('.') {
            lemma_no_split(pattern@);
        }
    }
    let wildcard_location = match find(pattern, '*') {
        Some(l) => l,
        None => return None,
    };
    let wildcard_end = match find(pattern, '.') {
        Some(l) => l,
        None => return None,
    };
    let pattern_len: usize = pattern.len();
    let after_first_dot = slice_subrange(pattern, wildcard_end + 1, pattern_len);
    proof {
        assert(after_first_dot@ =~= pattern@.skip(wildcard_end + 1));
        lemma_split_iff(pattern@, wildcard_location as int, wildcard_end as int);
    }
    // A wildcard needs at least two dots in the pattern (no *.com)
    if find(after_first_dot, '.').is_none() {
        return None;
    }
    // Wildcards can only be in the first component
    if wildcard_location > wildcard_end {
        return None;
    }
    let hostname_label_end = match find(hostname, '.') {
        Some(l) => l,
        None => return None,
    };
    let prefix = slice_subrange(pattern, 0, wildcard_location);
    let suffix = slice_subrange(pattern, wildcard_location + 1, wildcard_end);
    let tail = slice_subrange(pattern, wildcard_end, pattern.len());
    proof {
        lemma_split_exists(pattern@, wildcard_location as int, wildcard_end as int);
        assert(prefix@ =~= pattern@.take(wildcard_location as int));
        assert(tail@ =~= pattern@.skip(wildcard_end as int));
        lemma_covers_iff(pattern@, hostname@, prefix@, suffix@, tail@);
    }
    Some(fill_at(hostname, hostname_label_end, prefix, suffix, tail))
}

/// What the wildcard rules say of a pattern and a hostname.
///
/// `None` where they do not apply: the name is an IP address, the pattern is that of an
/// internationalized name, it has no wildcard in its first label or fewer than two dots, or the
/// hostname has no dot.
pub fn matches_wildcard(pattern: &str, hostname: &str, is_ip: bool) -> (verdict: Option<bool>)
    ensures
        verdict == wildcard_verdict(pattern@, hostname@, is_ip),
{
    let pattern = characters(pattern);
    let hostname = characters(hostname);
    wildcard(pattern.as_slice(), hostname.as_slice(), is_ip)
}

/// The characters of a name without the trailing dot.
fn normalize(name: &[char]) -> (short: &[char])
    ensures
        short@ == normalized(name@),
{
    if name.len() > 0 && name[name.len() - 1] == '.' {
        let short = slice_subrange(name, 0, name.len() - 1);
        assert(short@ =~= name@.drop_last());
        short
    } else {
        name
    }
}

/// Whether a DNS name pattern of a certificate matches a hostname.
pub fn matches_dns(pattern: &str, hostname: &str, is_ip: bool) -> (matched: bool)
    ensures
        matched == dns_match(pattern@, hostname@, is_ip),
{
    let pattern = characters(pattern);
    let hostname = characters(hostname);
    // first strip trailing . off of pattern and hostname to normalize
    let pattern = normalize(pattern.as_slice());
    let hostname = normalize(hostname.as_slice());
    match wildcard(pattern, hostname, is_ip) {
        Some(covered) => covered,
        None => equal(pattern, hostname),
    }
}

/// A trailing dot changes nothing, neither that of the pattern nor that of the hostname.
pub proof fn law_trailing_dot(pattern: Seq<char>, hostname: Seq<char>, is_ip: bool)
    ensures
        normalized(pattern) == pattern ==> dns_match(pattern.push('.'), hostname, is_ip)
            == dns_match(pattern, hostname, is_ip),
        normalized(hostname) == hostname ==> dns_match(pattern, hostname.push('.'), is_ip)
            == dns_match(pattern, hostname, is_ip),
{
    assert(pattern.push('.').drop_last() =~= pattern);
    assert(hostname.push('.').drop_last() =~= hostname);
}

/// Every name matches itself.
pub proof fn law_name_matches_itself(name: Seq<char>, is_ip: bool)
    ensures
        dns_match(name, name, is_ip),
{
    let short = normalized(name);
    if has_wildcard(short, is_ip) {
        let (prefix, suffix, tail) = choose|prefix: Seq<char>, suffix: Seq<char>, tail: Seq<char>|
            splits(short, prefix, suffix, tail);
        let middle = seq!['*'];
        assert(!middle.contains('.'));
        assert(fills(short, prefix, middle, suffix, tail));
        assert(covers(short, short));
    }
}

/// Where the name is an IP address, a pattern only matches itself, whatever wildcards it has.
pub proof fn law_ip_address_is_exact(pattern: Seq<char>, hostname: Seq<char>)
    ensures
        dns_match(pattern, hostname, true) <==> normalized(pattern) == normalized(hostname),
{
}

/// The pattern of an internationalized name only matches itself.
pub proof fn law_internationalized_is_exact(pattern: Seq<char>, hostname: Seq<char>, is_ip: bool)
    requires
        is_internationalized(normalized(pattern)),
    ensures
        dns_match(pattern, hostname, is_ip) <==> normalized(pattern) == normalized(hostname),
{
}

/// A pattern without a wildcard only matches itself.
pub proof fn law_plain_pattern_is_exact(pattern: Seq<char>, hostname: Seq<char>, is_ip: bool)
    requires
        !pattern.contains('*'),
    ensures
        dns_match(pattern, hostname, is_ip) <==> normalized(pattern) == normalized(hostname),
{
    let short = normalized(pattern);
    assert forall|i: int| 0 <= i < short.len() implies short[i] != '*' by {
        assert(short[i] == pattern[i]);
    }
    lemma_no_split(short);
}

/// A pattern with fewer than two dots, such as `*.com`, only matches itself.
pub proof fn law_few_dots_is_exact(pattern: Seq<char>, hostname: Seq<char>, is_ip: bool)
    requires
        forall|i: int, j: int|
            #![trigger normalized(pattern)[i], normalized(pattern)[j]]
            0 <= i < j < normalized(pattern).len() ==> !(normalized(pattern)[i] == '.'
                && normalized(pattern)[j] == '.'),
    ensures
        dns_match(pattern, hostname, is_ip) <==> normalized(pattern) == normalized(hostname),
{
    let short = normalized(pattern);
    if has_wildcard(short, is_ip) {
        let (prefix, suffix, tail) = choose|prefix: Seq<char>, suffix: Seq<char>, tail: Seq<char>|
            splits(short, prefix, suffix, tail);
        lemma_split_has_marks(short, prefix, suffix, tail);
        let dot: int = (prefix.len() + 1 + suffix.len()) as int;
        let rest = short.skip(dot + 1);
        let k = choose|k: int| 0 <= k < rest.len() && rest[k] == '.';
        assert(short[dot] == '.' && short[dot + 1 + k] == '.');
    }
}

/// A wildcard that stands behind the first dot is no wildcard: the pattern only matches itself.
pub proof fn law_later_wildcard_is_exact(
    pattern: Seq<char>,
    hostname: Seq<char>,
    is_ip: bool,
    star: int,
    dot: int,
)
    requires
        is_first(normalized(pattern), '*', star),
        is_first(normalized(pattern), '.', dot),
        dot < star,
    ensures
        dns_match(pattern, hostname, is_ip) <==> normalized(pattern) == normalized(hostname),
{
    lemma_split_iff(normalized(pattern), star, dot);
}

/// A wildcard never stands for a dot: what follows the first dot is the same in the pattern and
/// in every hostname that it matches.
pub proof fn law_match_keeps_the_domain(
    pattern: Seq<char>,
    hostname: Seq<char>,
    is_ip: bool,
    pattern_dot: int,
    hostname_dot: int,
)
    requires
        dns_match(pattern, hostname, is_ip),
        is_first(normalized(pattern), '.', pattern_dot),
        is_first(normalized(hostname), '.', hostname_dot),
    ensures
        normalized(pattern).skip(pattern_dot) == normalized(hostname).skip(hostname_dot),
{
    let short = normalized(pattern);
    let host = normalized(hostname);
    if wildcard_verdict(short, host, is_ip) is Some {
        let (prefix, suffix, tail) = choose|prefix: Seq<char>, suffix: Seq<char>, tail: Seq<char>|
            splits(short, prefix, suffix, tail);
        lemma_split_has_marks(short, prefix, suffix, tail);
        lemma_split_unique(short, prefix, suffix, tail, prefix.len() as int, pattern_dot);
        lemma_covers_iff(short, host, prefix, suffix, tail);
        let middle = choose|middle: Seq<char>| fills(host, prefix, middle, suffix, tail);
        lemma_fill_shape(host, prefix, middle, suffix, tail, hostname_dot);
    }
}

/// A wildcard stands for any characters of a label: whatever is put in its place, as long as it
/// holds no dot, gives a hostname that the pattern matches.
pub proof fn law_wildcard_stands_for_anything(
    pattern: Seq<char>,
    prefix: Seq<char>,
    middle: Seq<char>,
    suffix: Seq<char>,
    tail: Seq<char>,
)
    requires
        splits(pattern, prefix, suffix, tail),
        !is_internationalized(pattern),
        !middle.contains('.'),
        tail.last() != '.',
    ensures
        dns_match(pattern, prefix + middle + suffix + tail, false),
{
    let hostname = prefix + middle + suffix + tail;
    assert(pattern.last() == tail.last());
    assert(hostname.last() == tail.last());
    assert(hostname[(prefix.len() + middle.len() + suffix.len()) as int] == tail[0]);
    assert(fills(hostname, prefix, middle, suffix, tail));
    assert(covers(pattern, hostname));
}

/// What it means that a pattern splits, character by character.
proof fn lemma_split_by_character(
    pattern: Seq<char>,
    prefix: Seq<char>,
    suffix: Seq<char>,
    tail: Seq<char>,
)
    ensures
        splits(pattern, prefix, suffix, tail) <==> {
            &&& pattern == prefix + seq!['*'] + suffix + tail
            &&& forall|i: int| 0 <= i < prefix.len() ==> prefix[i] != '*' && prefix[i] != '.'
            &&& forall|i: int| 0 <= i < suffix.len() ==> suffix[i] != '.'
            &&& tail.len() > 0
            &&& tail[0] == '.'
            &&& exists|i: int| 0 < i < tail.len() && tail[i] == '.'
        },
{
    if splits(pattern, prefix, suffix, tail) {
        assert forall|i: int| 0 <= i < prefix.len() implies prefix[i] != '*' && prefix[i] != '.' by {
            assert(prefix.contains(prefix[i]));
        }
        assert forall|i: int| 0 <= i < suffix.len() implies suffix[i] != '.' by {
            assert(suffix.contains(suffix[i]));
        }
        let rest = tail.skip(1);
        let k = choose|k: int| 0 <= k < rest.len() && rest[k] == '.';
        assert(tail[k + 1] == '.');
    }
    if tail.len() > 0 && exists|i: int| 0 < i < tail.len() && tail[i] == '.' {
        let k = choose|k: int| 0 < k < tail.len() && tail[k] == '.';
        assert(tail.skip(1)[k - 1] == '.');
    }
}

/// What it means that a pattern is that of an internationalized name, character by character.
proof fn lemma_internationalized_by_character(pattern: Seq<char>)
    ensures
        is_internationalized(pattern) <==> pattern.len() >= 4 && pattern[0] == 'x' && pattern[1]
            == 'n' && pattern[2] == '-' && pattern[3] == '-',
{
    let mark = seq!['x', 'n', '-', '-'];
    if is_internationalized(pattern) {
        let start = pattern.subrange(0, 4);
        assert(start[0] == 'x' && start[1] == 'n' && start[2] == '-' && start[3] == '-');
    } else if pattern.len() >= 4 && pattern[0] == 'x' && pattern[1] == 'n' && pattern[2] == '-'
        && pattern[3] == '-' {
        assert(mark =~= pattern.subrange(0, 4));
    }
}

/// The wildcard rules speak only of a name that is no IP address, a pattern that is not that of an
/// internationalized name and reads `prefix*suffix.rest` with a dot in the rest, and a hostname
/// with a dot. Where they say yes, the hostname is the pattern with text without a dot in place of
/// its first wildcard. The parts are given back.
pub proof fn law_verdict_rests_on_a_wildcard(
    pattern: Seq<char>,
    hostname: Seq<char>,
    is_ip: bool,
) -> (parts: (Seq<char>, Seq<char>, Seq<char>, Seq<char>))
    requires
        wildcard_verdict(pattern, hostname, is_ip) is Some,
    ensures
        ({
            let (prefix, middle, suffix, tail) = parts;
            &&& !is_ip
            &&& !(pattern.len() >= 4 && pattern[0] == 'x' && pattern[1] == 'n' && pattern[2] == '-'
                && pattern[3] == '-')
            &&& pattern == prefix + seq!['*'] + suffix + tail
            &&& forall|i: int| 0 <= i < prefix.len() ==> prefix[i] != '*' && prefix[i] != '.'
            &&& forall|i: int| 0 <= i < suffix.len() ==> suffix[i] != '.'
            &&& tail.len() > 0
            &&& tail[0] == '.'
            &&& exists|i: int| 0 < i < tail.len() && tail[i] == '.'
            &&& exists|i: int| 0 <= i < hostname.len() && hostname[i] == '.'
            &&& wildcard_verdict(pattern, hostname, is_ip) == Some(true) ==> {
                &&& hostname == prefix + middle + suffix + tail
                &&& forall|i: int| 0 <= i < middle.len() ==> middle[i] != '.'
            }
        }),
{
    let (prefix, suffix, tail) = choose|prefix: Seq<char>, suffix: Seq<char>, tail: Seq<char>|
        splits(pattern, prefix, suffix, tail);
    lemma_split_by_character(pattern, prefix, suffix, tail);
    lemma_internationalized_by_character(pattern);
    let mut middle = Seq::<char>::empty();
    if covers(pattern, hostname) {
        lemma_covers_iff(pattern, hostname, prefix, suffix, tail);
        middle = choose|middle: Seq<char>| fills(hostname, prefix, middle, suffix, tail);
        assert forall|i: int| 0 <= i < middle.len() implies middle[i] != '.' by {
            assert(middle.contains(middle[i]));
        }
    }
    (prefix, middle, suffix, tail)
}

/// The wildcard rules speak of every name that is no IP address, pattern that is not that of an
/// internationalized name and reads `prefix*suffix.rest` with a dot in the rest, and hostname with
/// a dot. They say yes to every hostname that is the pattern with text without a dot in place of
/// the wildcard.
pub proof fn law_wildcard_has_a_verdict(
    prefix: Seq<char>,
    middle: Seq<char>,
    suffix: Seq<char>,
    tail: Seq<char>,
    hostname: Seq<char>,
    dot: int,
)
    requires
        ({
            let pattern = prefix + seq!['*'] + suffix + tail;
            !(pattern.len() >= 4 && pattern[0] == 'x' && pattern[1] == 'n' && pattern[2] == '-'
                && pattern[3] == '-')
        }),
        forall|i: int| 0 <= i < prefix.len() ==> prefix[i] != '*' && prefix[i] != '.',
        forall|i: int| 0 <= i < suffix.len() ==> suffix[i] != '.',
        forall|i: int| 0 <= i < middle.len() ==> middle[i] != '.',
        tail.len() > 0,
        tail[0] == '.',
        exists|i: int| 0 < i < tail.len() && tail[i] == '.',
        0 <= dot < hostname.len(),
        hostname[dot] == '.',
    ensures
        wildcard_verdict(prefix + seq!['*'] + suffix + tail, hostname, false) is Some,
        wildcard_verdict(
            prefix + seq!['*'] + suffix + tail,
            prefix + middle + suffix + tail,
            false,
        ) == Some(true),
{
    let pattern = prefix + seq!['*'] + suffix + tail;
    let filled = prefix + middle + suffix + tail;
    lemma_split_by_character(pattern, prefix, suffix, tail);
    lemma_internationalized_by_character(pattern);
    assert(hostname.contains('.'));
    assert(filled[(prefix.len() + middle.len() + suffix.len()) as int] == tail[0]);
    assert(filled.contains('.'));
    assert(fills(filled, prefix, middle, suffix, tail));
    assert(covers(pattern, filled));
}

/// A pattern matches a hostname only if the two are equal up to one trailing dot of each, or the
/// hostname is the pattern with text without a dot in place of its first wildcard. The latter only
/// holds for a name that is no IP address and a pattern that is not that of an internationalized
/// name, has that wildcard in its first label, and at least two dots. The parts are given back.
pub proof fn law_match_is_equality_or_substitution(
    pattern: Seq<char>,
    hostname: Seq<char>,
    is_ip: bool,
) -> (parts: (Seq<char>, Seq<char>, Seq<char>, Seq<char>))
    requires
        dns_match(pattern, hostname, is_ip),
    ensures
        ({
            let (prefix, middle, suffix, tail) = parts;
            let short = if pattern.len() > 0 && pattern.last() == '.' {
                pattern.drop_last()
            } else {
                pattern
            };
            let host = if hostname.len() > 0 && hostname.last() == '.' {
                hostname.drop_last()
            } else {
                hostname
            };
            ||| short == host
            ||| {
                &&& !is_ip
                &&& !(short.len() >= 4 && short[0] == 'x' && short[1] == 'n' && short[2] == '-'
                    && short[3] == '-')
                &&& short == prefix + seq!['*'] + suffix + tail
                &&& host == prefix + middle + suffix + tail
                &&& forall|i: int| 0 <= i < prefix.len() ==> prefix[i] != '*' && prefix[i] != '.'
                &&& forall|i: int| 0 <= i < middle.len() ==> middle[i] != '.'
                &&& forall|i: int| 0 <= i < suffix.len() ==> suffix[i] != '.'
                &&& tail.len() > 0
                &&& tail[0] == '.'
                &&& exists|i: int| 0 < i < tail.len() && tail[i] == '.'
            }
        }),
{
    let short = normalized(pattern);
    let host = normalized(hostname);
    if wildcard_verdict(short, host, is_ip) is Some {
        law_verdict_rests_on_a_wildcard(short, host, is_ip)
    } else {
        (Seq::empty(), Seq::empty(), Seq::empty(), Seq::empty())
    }
}

/// Names that are equal up to one trailing dot of each match, whatever they are.
pub proof fn law_equal_names_match(
    name: Seq<char>,
    pattern: Seq<char>,
    hostname: Seq<char>,
    is_ip: bool,
)
    requires
        pattern == name.push('.') || (pattern == name && !(name.len() > 0 && name.last() == '.')),
        hostname == name.push('.') || (hostname == name && !(name.len() > 0 && name.last()
            == '.')),
    ensures
        dns_match(pattern, hostname, is_ip),
{
    assert(name.push('.').drop_last() =~= name);
    if has_wildcard(name, is_ip) && name.contains('.') {
        let (prefix, suffix, tail) = choose|prefix: Seq<char>, suffix: Seq<char>, tail: Seq<char>|
            splits(name, prefix, suffix, tail);
        let middle = seq!['*'];
        assert(!middle.contains('.'));
        assert(fills(name, prefix, middle, suffix, tail));
        assert(covers(name, name));
    }
}

/// A pattern `prefix*suffix.rest` with a dot in the rest, that is not that of an internationalized
/// name, matches every hostname that has text without a dot in place of the wildcard, with or
/// without a trailing dot.
pub proof fn law_substitution_matches(
    prefix: Seq<char>,
    middle: Seq<char>,
    suffix: Seq<char>,
    tail: Seq<char>,
    pattern: Seq<char>,
    hostname: Seq<char>,
)
    requires
        ({
            let short = prefix + seq!['*'] + suffix + tail;
            let host = prefix + middle + suffix + tail;
            &&& !(short.len() >= 4 && short[0] == 'x' && short[1] == 'n' && short[2] == '-'
                && short[3] == '-')
            &&& pattern == short.push('.') || (pattern == short && tail.last() != '.')
            &&& hostname == host.push('.') || (hostname == host && tail.last() != '.')
        }),
        forall|i: int| 0 <= i < prefix.len() ==> prefix[i] != '*' && prefix[i] != '.',
        forall|i: int| 0 <= i < middle.len() ==> middle[i] != '.',
        forall|i: int| 0 <= i < suffix.len() ==> suffix[i] != '.',
        tail.len() > 0,
        tail[0] == '.',
        exists|i: int| 0 < i < tail.len() && tail[i] == '.',
    ensures
        dns_match(pattern, hostname, false),
{
    let short = prefix + seq!['*'] + suffix + tail;
    let host = prefix + middle + suffix + tail;
    assert(short.last() == tail.last());
    assert(host.last() == tail.last());
    assert(short.push('.').drop_last() =~= short);
    assert(host.push('.').drop_last() =~= host);
    let dot: int = (prefix.len() + middle.len() + suffix.len()) as int;
    assert(host[dot] == tail[0]);
    law_wildcard_has_a_verdict(prefix, middle, suffix, tail, host, dot);
}

/// A hostname that has no dot, but for a trailing one, is matched by the patterns that are equal to
/// it up to a trailing dot, and by no others.
pub proof fn law_hostname_without_a_dot_is_exact(
    pattern: Seq<char>,
    hostname: Seq<char>,
    is_ip: bool,
)
    requires
        forall|i: int| 0 <= i < hostname.len() - 1 ==> hostname[i] != '.',
    ensures
        ({
            let short = if pattern.len() > 0 && pattern.last() == '.' {
                pattern.drop_last()
            } else {
                pattern
            };
            let host = if hostname.len() > 0 && hostname.last() == '.' {
                hostname.drop_last()
            } else {
                hostname
            };
            dns_match(pattern, hostname, is_ip) <==> short == host
        }),
{
    let short = normalized(pattern);
    let host = normalized(hostname);
    assert forall|i: int| 0 <= i < host.len() implies host[i] != '.' by {
        assert(host[i] == hostname[i]);
    }
    if dns_match(pattern, hostname, is_ip) {
        let (prefix, middle, suffix, tail) = law_match_is_equality_or_substitution(
            pattern,
            hostname,
            is_ip,
        );
        if short != host {
            assert(host[(prefix.len() + middle.len() + suffix.len()) as int] == tail[0]);
        }
    }
    if short == host {
        assert(pattern =~= short.push('.') || pattern == short);
        assert(hostname =~= host.push('.') || hostname == host);
        law_equal_names_match(short, pattern, hostname, is_ip);
    }
}

} // verus!
