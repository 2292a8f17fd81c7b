//! Text building blocks of the admission flow: HTML escaping for chat
//! display names, placeholder replacement for the welcome template, and
//! decimal rendering for the identifiers embedded in the challenge link
//! and the domain-binding fields.

use vstd::prelude::*;

verus! {

/// The characters of `s`, in order.
pub fn chars_of(s: &str) -> (r: Vec<char>)
    ensures
        r@ == s@,
{
    let mut v: Vec<char> = Vec::new();
    for c in it: s.chars()
        invariant
            it.seq() == s@,
            v@ == it.seq().take(it.index() as int),
    {
        v.push(c);
    }
    proof {
        assert(v@ =~= s@);
    }
    v
}

/// Relies on `String` collecting an iterator of `char`s: the collected
/// string holds exactly the characters of the vector, in order.
#[verifier::external_body]
pub(crate) fn chars_to_string(v: &Vec<char>) -> (r: String)
    ensures
        r@ == v@,
{
    v.iter().collect()
}

/// How one character is rendered inside chat HTML: the three markup
/// characters become entities, everything else stands as itself.
pub open spec fn html_escaped_char(c: char) -> Seq<char> {
    if c == '&' {
        "&amp;"@
    } else if c == '<' {
        "&lt;"@
    } else if c == '>' {
        "&gt;"@
    } else {
        seq![c]
    }
}

/// `s` rendered inside chat HTML, character by character.
pub open spec fn html_escaped(s: Seq<char>) -> Seq<char>
    decreases s.len(),
{
    if s.len() == 0 {
        Seq::empty()
    } else {
        html_escaped_char(s[0]) + html_escaped(s.drop_first())
    }
}

proof fn lemma_html_escaped_push(s: Seq<char>, c: char)
    ensures
        html_escaped(s.push(c)) == html_escaped(s) + html_escaped_char(c),
    decreases s.len(),
{
    assert(s.push(c)[0] == if s.len() == 0 { c } else { s[0] });
    if s.len() == 0 {
        assert(s.push(c).drop_first() =~= Seq::<char>::empty());
        assert(html_escaped(s.push(c)) == html_escaped_char(c) + html_escaped(
            Seq::<char>::empty(),
        ));
        assert(html_escaped(s.push(c)) =~= html_escaped(s) + html_escaped_char(c));
    } else {
        assert(s.push(c).drop_first() =~= s.drop_first().push(c));
        lemma_html_escaped_push(s.drop_first(), c);
        assert(html_escaped(s.push(c)) == html_escaped_char(s[0]) + html_escaped(
            s.drop_first().push(c),
        ));
        assert(html_escaped(s.push(c)) =~= html_escaped(s) + html_escaped_char(c));
    }
}

/// Escapes a string for embedding in chat HTML: `&`, `<` and `>` become
/// `&amp;`, `&lt;` and `&gt;`.
pub fn escape(s: &str) -> (r: String)
    ensures
        r@ == html_escaped(s@),
{
    let out = escape_chars(s);
    chars_to_string(&out)
}

/// The escaped string, as characters.
pub(crate) fn escape_chars(s: &str) -> (r: Vec<char>)
    ensures
        r@ == html_escaped(s@),
{
    let cs = chars_of(s);
    let mut out: Vec<char> = Vec::new();
    let n: usize = cs.len();
    proof {
        assert(cs@.take(0) =~= Seq::<char>::empty());
    }
    for i in it: 0..n
        invariant
            n == cs@.len(),
            cs@ == s@,
            out@ == html_escaped(cs@.take(i as int)),
    {
        let c = cs[i];
        if c == '&' {
            out.push('&');
            out.push('a');
            out.push('m');
            out.push('p');
            out.push(';');
            proof {
                reveal_strlit("&amp;");
                assert(out@ =~= html_escaped(cs@.take(i as int)) + "&amp;"@);
            }
        } else if c == '<' {
            out.push('&');
            out.push('l');
            out.push('t');
            out.push(';');
            proof {
                reveal_strlit("&lt;");
                assert(out@ =~= html_escaped(cs@.take(i as int)) + "&lt;"@);
            }
        } else if c == '>' {
            out.push('&');
            out.push('g');
            out.push('t');
            out.push(';');
            proof {
                reveal_strlit("&gt;");
                assert(out@ =~= html_escaped(cs@.take(i as int)) + "&gt;"@);
            }
        } else {
            out.push(c);
            proof {
                assert(out@ =~= html_escaped(cs@.take(i as int)) + seq![c]);
            }
        }
        proof {
            lemma_html_escaped_push(cs@.take(i as int), c);
            assert(cs@.take(i as int).push(c) =~= cs@.take(i + 1));
        }
    }
    proof {
        assert(cs@.take(n as int) =~= cs@);
    }
    out
}

/// `s` with every occurrence of `pat` replaced by `to`, scanning left to
/// right without overlap.  An empty pattern replaces nothing.
pub open spec fn replaced(s: Seq<char>, pat: Seq<char>, to: Seq<char>) -> Seq<char>
    decreases s.len(),
{
    if pat.len() == 0 || s.len() < pat.len() {
        s
    } else if s.take(pat.len() as int) == pat {
        to + replaced(s.skip(pat.len() as int), pat, to)
    } else {
        seq![s[0]] + replaced(s.drop_first(), pat, to)
    }
}

/// Whether `pat` occurs in `s` starting at position `i`.
fn matches_at(s: &Vec<char>, pat: &Vec<char>, i: usize) -> (r: bool)
    requires
        i + pat@.len() <= s@.len(),
    ensures
        r == (s@.subrange(i as int, i + pat@.len()) =~= pat@),
{
    let m: usize = pat.len();
    let ns: usize = s.len();
    for j in it: 0..m
        invariant
            m == pat@.len(),
            ns == s@.len(),
            i + m <= ns,
            forall|k: int| 0 <= k < j ==> s@[i + k] == pat@[k],
    {
        if s[i + j] != pat[j] {
            proof {
                assert(s@.subrange(i as int, i + pat@.len())[j as int] != pat@[j as int]);
            }
            return false;
        }
    }
    proof {
        assert forall|k: int| 0 <= k < m implies s@.subrange(i as int, i + pat@.len())[k]
            == pat@[k] by {
            assert(s@[i + k] == pat@[k]);
        }
    }
    true
}

/// Replaces every occurrence of `pat` in `s` by `to`, scanning left to
/// right without overlap.
pub fn replace_chars(s: &Vec<char>, pat: &Vec<char>, to: &Vec<char>) -> (r: Vec<char>)
    ensures
        r@ == replaced(s@, pat@, to@),
{
    let mut out: Vec<char> = Vec::new();
    let mut i: usize = 0;
    let n: usize = s.len();
    let m: usize = pat.len();
    proof {
        assert(s@.skip(0) =~= s@);
        assert(Seq::<char>::empty() + replaced(s@, pat@, to@) =~= replaced(s@, pat@, to@));
    }
    while i < n
        invariant
            n == s@.len(),
            m == pat@.len(),
            i <= n,
            replaced(s@, pat@, to@) == out@ + replaced(s@.skip(i as int), pat@, to@),
        decreases n - i,
    {
        if m > 0 && m <= n - i && matches_at(s, pat, i) {
            let ghost rest = s@.skip(i as int);
            let ghost out0 = out@;
            proof {
                assert(rest.take(m as int) =~= s@.subrange(i as int, i + m));
                assert(rest.len() >= m);
                assert(rest.skip(m as int) =~= s@.skip(i + m));
                assert(replaced(rest, pat@, to@) == to@ + replaced(s@.skip(i + m), pat@, to@));
            }
            let mut j: usize = 0;
            while j < to.len()
                invariant
                    j <= to@.len(),
                    out@ == out0 + to@.take(j as int),
                decreases to@.len() - j,
            {
                out.push(to[j]);
                proof {
                    assert(out0 + to@.take(j as int) + seq![to@[j as int]] =~= out0 + to@.take(
                        j + 1,
                    ));
                }
                j += 1;
            }
            proof {
                assert(to@.take(to@.len() as int) =~= to@);
            }
            i += m;
        } else {
            let ghost rest = s@.skip(i as int);
            proof {
                if m > 0 && rest.len() >= m {
                    assert(rest.take(m as int) =~= s@.subrange(i as int, i + m));
                    assert(!(rest.take(m as int) == pat@));
                }
                assert(rest[0] == s@[i as int]);
                assert(rest.drop_first() =~= s@.skip(i + 1));
                assert(replaced(rest, pat@, to@) == seq![s@[i as int]] + replaced(
                    s@.skip(i + 1),
                    pat@,
                    to@,
                ));
            }
            out.push(s[i]);
            i += 1;
        }
    }
    proof {
        assert(s@.skip(n as int) =~= Seq::<char>::empty());
        assert(out@ + replaced(s@.skip(n as int), pat@, to@) =~= out@);
    }
    out
}

/// The decimal digit character for `d`.
pub open spec fn digit_char(d: nat) -> char {
    if d == 0 {
        '0'
    } else if d == 1 {
        '1'
    } else if d == 2 {
        '2'
    } else if d == 3 {
        '3'
    } else if d == 4 {
        '4'
    } else if d == 5 {
        '5'
    } else if d == 6 {
        '6'
    } else if d == 7 {
        '7'
    } else if d == 8 {
        '8'
    } else {
        '9'
    }
}

/// `n` written in decimal, most significant digit first, no leading zeros
/// (a single `0` for zero itself).
pub open spec fn dec_str(n: nat) -> Seq<char>
    decreases n,
{
    if n < 10 {
        seq![digit_char(n)]
    } else {
        dec_str(n / 10).push(digit_char(n % 10))
    }
}

/// A signed value written in decimal: a leading `-` before the magnitude
/// when negative.
pub open spec fn int_dec_str(v: int) -> Seq<char> {
    if v < 0 {
        seq!['-'] + dec_str((-v) as nat)
    } else {
        dec_str(v as nat)
    }
}

fn digit_char_exec(d: u64) -> (c: char)
    requires
        d < 10,
    ensures
        c == digit_char(d as nat),
{
    if d == 0 {
        '0'
    } else if d == 1 {
        '1'
    } else if d == 2 {
        '2'
    } else if d == 3 {
        '3'
    } else if d == 4 {
        '4'
    } else if d == 5 {
        '5'
    } else if d == 6 {
        '6'
    } else if d == 7 {
        '7'
    } else if d == 8 {
        '8'
    } else {
        '9'
    }
}

/// Appends the decimal rendering of `n` to `out`.
fn push_dec(out: &mut Vec<char>, n: u64)
    ensures
        final(out)@ == old(out)@ + dec_str(n as nat),
    decreases n,
{
    if n < 10 {
        out.push(digit_char_exec(n));
        proof {
            assert(old(out)@.push(digit_char(n as nat)) =~= old(out)@ + dec_str(n as nat));
        }
    } else {
        let ghost before = out@;
        push_dec(out, n / 10);
        out.push(digit_char_exec(n % 10));
        proof {
            assert((before + dec_str((n / 10) as nat)).push(digit_char((n % 10) as nat))
                =~= before + dec_str(n as nat));
        }
    }
}

/// Appends the decimal rendering of a signed value to `out`.
fn push_dec_signed(out: &mut Vec<char>, v: i64)
    ensures
        final(out)@ == old(out)@ + int_dec_str(v as int),
{
    if v < 0 {
        let ghost before = out@;
        out.push('-');
        let magnitude: u64 = (-(v as i128)) as u64;
        proof {
            assert(magnitude as nat == -(v as int));
        }
        push_dec(out, magnitude);
        proof {
            assert(before.push('-') + dec_str(magnitude as nat) =~= before + int_dec_str(
                v as int,
            ));
        }
    } else {
        push_dec(out, v as u64);
    }
}

/// `n` in decimal, as a string.
pub fn dec_u64(n: u64) -> (r: String)
    ensures
        r@ == dec_str(n as nat),
{
    let mut v: Vec<char> = Vec::new();
    push_dec(&mut v, n);
    chars_to_string(&v)
}

/// A signed value in decimal, as a string.
pub fn dec_i64(v: i64) -> (r: String)
    ensures
        r@ == int_dec_str(v as int),
{
    let mut out: Vec<char> = Vec::new();
    push_dec_signed(&mut out, v);
    chars_to_string(&out)
}

/// The relative link path a challenge for (group, member) embeds, which
/// routes the member's proof back to exactly that pending request.
pub open spec fn verify_path_spec(group: int, member: nat) -> Seq<char> {
    "verify/"@ + int_dec_str(group) + "/"@ + dec_str(member)
}

/// Renders the challenge link path for (group, member).
pub fn verify_path(group: i64, member: u64) -> (r: String)
    ensures
        r@ == verify_path_spec(group as int, member as nat),
{
    let mut out: Vec<char> = Vec::new();
    out.push('v');
    out.push('e');
    out.push('r');
    out.push('i');
    out.push('f');
    out.push('y');
    out.push('/');
    proof {
        reveal_strlit("verify/");
        assert(out@ =~= "verify/"@);
    }
    push_dec_signed(&mut out, group);
    let ghost mid = out@;
    out.push('/');
    proof {
        reveal_strlit("/");
        assert(mid.push('/') =~= mid + "/"@);
    }
    push_dec(&mut out, member);
    proof {
        assert(out@ =~= verify_path_spec(group as int, member as nat));
    }
    chars_to_string(&out)
}

} // verus!
