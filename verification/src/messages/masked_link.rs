//! Detection of Markdown masked links, `[text](http://target)`, the shape that
//! phishing messages use to hide where a link really leads.
use vstd::prelude::*;

verus! {

/// The characters that count as white space between the parts of a masked
/// link: the Unicode `White_Space` property.
pub open spec fn is_link_space(c: char) -> bool {
    let u = c as u32;
    ||| 0x09 <= u <= 0x0D
    ||| u == 0x20
    ||| u == 0x85
    ||| u == 0xA0
    ||| u == 0x1680
    ||| 0x2000 <= u <= 0x200A
    ||| u == 0x2028
    ||| u == 0x2029
    ||| u == 0x202F
    ||| u == 0x205F
    ||| u == 0x3000
}

/// No character of `s` closes the link text.
pub open spec fn no_close_bracket(s: Seq<char>) -> bool {
    forall|i: int| 0 <= i < s.len() ==> s[i] != ']'
}

/// Every character of `s` is white space.
pub open spec fn all_link_space(s: Seq<char>) -> bool {
    forall|i: int| 0 <= i < s.len() ==> is_link_space(#[trigger] s[i])
}

/// `s` is `http://` or `https://`.
pub open spec fn is_link_scheme(s: Seq<char>) -> bool {
    ||| s == seq!['h', 't', 't', 'p', ':', '/', '/']
    ||| s == seq!['h', 't', 't', 'p', 's', ':', '/', '/']
}

/// `s` is a non-empty run of characters that are neither white space nor `)`.
pub open spec fn is_link_target(s: Seq<char>) -> bool {
    &&& s.len() > 0
    &&& forall|i: int| 0 <= i < s.len() ==> !is_link_space(#[trigger] s[i]) && s[i] != ')'
}

/// `t` splits into the given parts of a masked link:
/// `[` text `](` space scheme target space `)`.
pub open spec fn masked_link_parts(
    t: Seq<char>,
    label: Seq<char>,
    lead: Seq<char>,
    scheme: Seq<char>,
    target: Seq<char>,
    trail: Seq<char>,
) -> bool {
    &&& no_close_bracket(label)
    &&& all_link_space(lead)
    &&& is_link_scheme(scheme)
    &&& is_link_target(target)
    &&& all_link_space(trail)
    &&& t == seq!['['] + label + seq![']', '('] + lead + scheme + target + trail + seq![')']
}

/// `t` is, as a whole, one masked link: the language of the pattern
/// `\[\s*([^\]]*?)\s*]\(\s*(https?://[^\s)]+)\s*\)`. White space is never `]`,
/// so the spaces around the link text belong to the text.
pub open spec fn is_masked_link(t: Seq<char>) -> bool {
    exists|label: Seq<char>, lead: Seq<char>, scheme: Seq<char>, target: Seq<char>, trail: Seq<char>|
        masked_link_parts(t, label, lead, scheme, target, trail)
}

/// A masked link starts at position `a` of `s`.
pub open spec fn masked_link_at(s: Seq<char>, a: int) -> bool {
    exists|e: int| a <= e <= s.len() && #[trigger] is_masked_link(s.subrange(a, e))
}

/// Some stretch of `s` is a masked link.
pub open spec fn contains_masked_link(s: Seq<char>) -> bool {
    exists|a: int, e: int| 0 <= a <= e <= s.len() && #[trigger] is_masked_link(s.subrange(a, e))
}

/// Collects the characters of a string slice into a vector.
pub fn chars_of(text: &str) -> (res: Vec<char>)
    ensures
        res@ == text@,
{
    broadcast use vstd::string::group_string_axioms;

    let mut out: Vec<char> = Vec::new();
    for c in it: text.chars()
        invariant
            out@ == it.seq().take(it.index()),
            it.seq() == text@,
    {
        out.push(c);
    }
    out
}

/// Whether `c` is white space in the sense of [`is_link_space`].
pub fn link_space(c: char) -> (r: bool)
    ensures
        r == is_link_space(c),
{
    let u = c as u32;
    (0x09 <= u && u <= 0x0D) || u == 0x20 || u == 0x85 || u == 0xA0 || u == 0x1680 || (0x2000
        <= u && u <= 0x200A) || u == 0x2028 || u == 0x2029 || u == 0x202F || u == 0x205F || u
        == 0x3000
}

/// The positions of a masked link that starts at `a`: `b` is its `]`, `c` the
/// start of its scheme, `d` the start of its target, `f` the end of its target
/// and `g` its closing `)`.
pub open spec fn link_positions(s: Seq<char>, a: int, b: int, c: int, d: int, f: int, g: int) -> bool {
    &&& 0 <= a < b
    &&& g < s.len()
    &&& s[a] == '['
    &&& forall|k: int| a < k < b ==> s[k] != ']'
    &&& s[b] == ']'
    &&& s[b + 1] == '('
    &&& b + 2 <= c
    &&& forall|k: int| b + 2 <= k < c ==> is_link_space(#[trigger] s[k])
    &&& (d == c + 7 || d == c + 8)
    &&& s[c] == 'h' && s[c + 1] == 't' && s[c + 2] == 't' && s[c + 3] == 'p'
    &&& (d == c + 8 ==> s[c + 4] == 's')
    &&& s[d - 3] == ':' && s[d - 2] == '/' && s[d - 1] == '/'
    &&& d < f <= g
    &&& forall|k: int| d <= k < f ==> !is_link_space(#[trigger] s[k]) && s[k] != ')'
    &&& forall|k: int| f <= k < g ==> is_link_space(#[trigger] s[k])
    &&& s[g] == ')'
}

/// A split of `s.subrange(a, e)` into masked-link parts fixes the positions.
proof fn lemma_parts_positions(
    s: Seq<char>,
    a: int,
    e: int,
    label: Seq<char>,
    lead: Seq<char>,
    scheme: Seq<char>,
    target: Seq<char>,
    trail: Seq<char>,
)
    requires
        0 <= a <= e <= s.len(),
        masked_link_parts(s.subrange(a, e), label, lead, scheme, target, trail),
    ensures
        link_positions(
            s,
            a,
            a + 1 + label.len(),
            a + 3 + label.len() + lead.len(),
            a + 3 + label.len() + lead.len() + scheme.len(),
            a + 3 + label.len() + lead.len() + scheme.len() + target.len(),
            e - 1,
        ),
        e - 1 == a + 3 + label.len() + lead.len() + scheme.len() + target.len() + trail.len(),
{
    let t = s.subrange(a, e);
    let b = a + 1 + label.len();
    let c = b + 2 + lead.len();
    let d = c + scheme.len();
    let f = d + target.len();
    let p1 = seq!['['] + label;
    let p2 = p1 + seq![']', '('];
    let p3 = p2 + lead;
    let p4 = p3 + scheme;
    let p5 = p4 + target;
    let p6 = p5 + trail;
    assert(t == p6 + seq![')']);
    assert(t.len() == e - a);
    assert(s[a] == t[0]);
    assert forall|k: int| a < k < b implies s[k] != ']' by {
        assert(s[k] == t[k - a]);
        assert(t[k - a] == p1[k - a]);
        assert(p1[k - a] == label[k - a - 1]);
    }
    assert(s[b] == t[b - a]);
    assert(t[b - a] == p2[b - a]);
    assert(s[b + 1] == t[b + 1 - a]);
    assert(t[b + 1 - a] == p2[b + 1 - a]);
    assert forall|k: int| b + 2 <= k < c implies is_link_space(#[trigger] s[k]) by {
        assert(s[k] == t[k - a]);
        assert(t[k - a] == p3[k - a]);
        assert(p3[k - a] == lead[k - c + lead.len()]);
    }
    assert forall|k: int| 0 <= k < scheme.len() implies s[c + k] == scheme[k] by {
        assert(s[c + k] == t[c + k - a]);
        assert(t[c + k - a] == p4[c + k - a]);
    }
    let http = seq!['h', 't', 't', 'p', ':', '/', '/'];
    let https = seq!['h', 't', 't', 'p', 's', ':', '/', '/'];
    if scheme == http {
        assert(http[0] == 'h' && http[1] == 't' && http[2] == 't' && http[3] == 'p');
        assert(http[4] == ':' && http[5] == '/' && http[6] == '/');
        assert(s[c] == scheme[0] && s[c + 1] == scheme[1] && s[c + 2] == scheme[2] && s[c + 3]
            == scheme[3]);
        assert(s[c + 4] == scheme[4] && s[c + 5] == scheme[5] && s[c + 6] == scheme[6]);
    } else {
        assert(scheme == https);
        assert(https[0] == 'h' && https[1] == 't' && https[2] == 't' && https[3] == 'p'
            && https[4] == 's');
        assert(https[5] == ':' && https[6] == '/' && https[7] == '/');
        assert(s[c] == scheme[0] && s[c + 1] == scheme[1] && s[c + 2] == scheme[2] && s[c + 3]
            == scheme[3] && s[c + 4] == scheme[4]);
        assert(s[c + 5] == scheme[5] && s[c + 6] == scheme[6] && s[c + 7] == scheme[7]);
    }
    assert forall|k: int| d <= k < f implies !is_link_space(#[trigger] s[k]) && s[k] != ')' by {
        assert(s[k] == t[k - a]);
        assert(t[k - a] == p5[k - a]);
        assert(p5[k - a] == target[k - d]);
    }
    assert forall|k: int| f <= k < e - 1 implies is_link_space(#[trigger] s[k]) by {
        assert(s[k] == t[k - a]);
        assert(t[k - a] == p6[k - a]);
        assert(p6[k - a] == trail[k - f]);
    }
    assert(s[e - 1] == t[e - 1 - a]);
}

/// Positions as [`link_positions`] describes them make a masked link.
proof fn lemma_positions_link(s: Seq<char>, a: int, b: int, c: int, d: int, f: int, g: int)
    requires
        link_positions(s, a, b, c, d, f, g),
    ensures
        is_masked_link(s.subrange(a, g + 1)),
{
    let label = s.subrange(a + 1, b);
    let lead = s.subrange(b + 2, c);
    let scheme = s.subrange(c, d);
    let target = s.subrange(d, f);
    let trail = s.subrange(f, g);
    let http = seq!['h', 't', 't', 'p', ':', '/', '/'];
    let https = seq!['h', 't', 't', 'p', 's', ':', '/', '/'];
    if d == c + 7 {
        assert(scheme =~= http);
    } else {
        assert(scheme =~= https);
    }
    assert(all_link_space(lead));
    assert(all_link_space(trail));
    assert(is_link_target(target));
    let t = s.subrange(a, g + 1);
    assert(t =~= seq!['['] + label + seq![']', '('] + lead + scheme + target + trail + seq![')']);
    assert(masked_link_parts(t, label, lead, scheme, target, trail));
}

/// A masked link at `a` has positions as [`link_positions`] describes them.
proof fn lemma_link_positions(s: Seq<char>, a: int) -> (p: (int, int, int, int, int))
    requires
        0 <= a,
        masked_link_at(s, a),
    ensures
        link_positions(s, a, p.0, p.1, p.2, p.3, p.4),
{
    let e = choose|e: int| a <= e <= s.len() && #[trigger] is_masked_link(s.subrange(a, e));
    let (label, lead, scheme, target, trail) = choose|
        label: Seq<char>,
        lead: Seq<char>,
        scheme: Seq<char>,
        target: Seq<char>,
        trail: Seq<char>,
    | masked_link_parts(s.subrange(a, e), label, lead, scheme, target, trail);
    lemma_parts_positions(s, a, e, label, lead, scheme, target, trail);
    (
        a + 1 + label.len(),
        a + 3 + label.len() + lead.len(),
        a + 3 + label.len() + lead.len() + scheme.len(),
        a + 3 + label.len() + lead.len() + scheme.len() + target.len(),
        e - 1,
    )
}

/// Whether a masked link starts at position `a` of `s`.
fn link_starts_at(s: &Vec<char>, a: usize) -> (r: bool)
    requires
        a < s.len(),
    ensures
        r == masked_link_at(s@, a as int),
{
    let n = s.len();
    let ghost sq = s@;
    if s[a] != '[' {
        proof {
            if masked_link_at(sq, a as int) {
                let p = lemma_link_positions(sq, a as int);
            }
        }
        return false;
    }
    // The link text runs up to the first `]`.

    let mut b = a + 1;
    while b < n && s[b] != ']'
        invariant
            a < b <= n,
            n == s.len(),
            sq == s@,
            forall|k: int| a < k < b ==> sq[k] != ']',
        decreases n - b,
    {
        b = b + 1;
    }
    if n - b <= 1 || s[b + 1] != '(' {
        proof {
            if masked_link_at(sq, a as int) {
                let p = lemma_link_positions(sq, a as int);
                if p.0 < b {
                    assert(sq[p.0] != ']');
                } else if p.0 > b {
                    assert(sq[b as int] != ']');
                }
            }
        }
        return false;
    }
    // White space, then the scheme.

    let mut c = b + 2;
    while c < n && link_space(s[c])
        invariant
            b + 2 <= c <= n,
            n == s.len(),
            sq == s@,
            forall|k: int| b + 2 <= k < c ==> is_link_space(#[trigger] sq[k]),
        decreases n - c,
    {
        c = c + 1;
    }
    let ghost found = b;
    proof {
        assert(forall|k: int| a < k < found ==> sq[k] != ']');
    }
    if n - c < 4 || s[c] != 'h' || s[c + 1] != 't' || s[c + 2] != 't' || s[c + 3] != 'p' {
        proof {
            if masked_link_at(sq, a as int) {
                let p = lemma_link_positions(sq, a as int);
                if p.0 < b {
                    assert(sq[p.0] != ']');
                } else if p.0 > b {
                    assert(sq[b as int] != ']');
                }
                assert(!is_link_space('h'));
                if p.1 < c {
                    assert(is_link_space(sq[p.1]));
                } else if p.1 > c {
                    assert(is_link_space(sq[c as int]));
                }
            }
        }
        return false;
    }
    // `http`, an optional `s`, then `://`.

    let mut d = c + 4;
    if d < n && s[d] == 's' {
        d = d + 1;
    }
    if n - d < 3 || s[d] != ':' || s[d + 1] != '/' || s[d + 2] != '/' {
        proof {
            if masked_link_at(sq, a as int) {
                let p = lemma_link_positions(sq, a as int);
                if p.0 < b {
                    assert(sq[p.0] != ']');
                } else if p.0 > b {
                    assert(sq[b as int] != ']');
                }
                assert(!is_link_space('h'));
                if p.1 < c {
                    assert(is_link_space(sq[p.1]));
                } else if p.1 > c {
                    assert(is_link_space(sq[c as int]));
                }
            }
        }
        return false;
    }
    let d = d + 3;
    // The target runs up to the first white space or `)`.

    let mut f = d;
    while f < n && !link_space(s[f]) && s[f] != ')'
        invariant
            d <= f <= n,
            n == s.len(),
            sq == s@,
            forall|k: int| d <= k < f ==> !is_link_space(#[trigger] sq[k]) && sq[k] != ')',
        decreases n - f,
    {
        f = f + 1;
    }
    // White space, then `)`.

    let mut g = f;
    while g < n && link_space(s[g])
        invariant
            f <= g <= n,
            n == s.len(),
            sq == s@,
            forall|k: int| f <= k < g ==> is_link_space(#[trigger] sq[k]),
        decreases n - g,
    {
        g = g + 1;
    }
    let found = f > d && g < n && s[g] == ')';
    proof {
        if found {
            lemma_positions_link(sq, a as int, b as int, c as int, d as int, f as int, g as int);
            assert(masked_link_at(sq, a as int));
        }
        if masked_link_at(sq, a as int) {
            let p = lemma_link_positions(sq, a as int);
            if p.0 < b {
                assert(sq[p.0] != ']');
            } else if p.0 > b {
                assert(sq[b as int] != ']');
            }
            assert(!is_link_space('h'));
            if p.1 < c {
                assert(is_link_space(sq[p.1]));
            } else if p.1 > c {
                assert(is_link_space(sq[c as int]));
            }
            assert(p.2 == d);
            if p.3 < f {
                assert(!is_link_space(sq[p.3]) && sq[p.3] != ')');
            } else if p.3 > f {
                assert(!is_link_space(sq[f as int]) && sq[f as int] != ')');
            }
            if p.4 < g {
                assert(is_link_space(sq[p.4]));
            } else if p.4 > g {
                assert(is_link_space(sq[g as int]));
            }
        }
    }
    found
}

/// Whether `msgtext` holds a masked link: some stretch of it is `[` text `](`,
/// optional white space, `http://` or `https://`, a target of at least one
/// character that is neither white space nor `)`, optional white space, `)`.
pub fn contains_masked_links(msgtext: &str) -> (r: bool)
    ensures
        r == contains_masked_link(msgtext@),
{
    let s = chars_of(msgtext);
    let n = s.len();
    let mut a: usize = 0;
    while a < n
        invariant
            a <= n,
            n == s.len(),
            s@ == msgtext@,
            forall|i: int| 0 <= i < a ==> !#[trigger] masked_link_at(s@, i),
        decreases n - a,
    {
        if link_starts_at(&s, a) {
            proof {
                let e = choose|e: int| a <= e <= s@.len() && #[trigger] is_masked_link(s@.subrange(a as int, e));
                assert(is_masked_link(s@.subrange(a as int, e)));
            }
            return true;
        }
        a = a + 1;
    }
    proof {
        if contains_masked_link(s@) {
            let (i, e) = choose|i: int, e: int| 0 <= i <= e <= s@.len() && #[trigger] is_masked_link(s@.subrange(i, e));
            let t = s@.subrange(i, e);
            let (label, lead, scheme, target, trail) = choose|
                label: Seq<char>,
                lead: Seq<char>,
                scheme: Seq<char>,
                target: Seq<char>,
                trail: Seq<char>,
            | masked_link_parts(t, label, lead, scheme, target, trail);
            lemma_parts_positions(s@, i, e, label, lead, scheme, target, trail);
            assert(masked_link_at(s@, i));
        }
    }
    false
}

} // verus!
