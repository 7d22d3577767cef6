use vstd::prelude::*;
use vstd::string::*;

verus! {

/// Relies on `String::push`: appends one character.
#[verifier::external_body]
pub(crate) fn push_char(s: &mut String, c: char)
    ensures
        final(s)@ == old(s)@.push(c),
{
    s.push(c);
}

// ---------------------------------------------------------------------------
// Decimal numerals

/// The numeral of a decimal digit.
pub open spec fn digit_char(d: int) -> char {
    if d == 0 {
        '0'
    } else if d == 1 {
        '1'
    } else if d == 2 {
        '2'
    } else if d == 3 {
        '3'
    } else if d == 4 {
        '4'
    } else if d == 5 {
        '5'
    } else if d == 6 {
        '6'
    } else if d == 7 {
        '7'
    } else if d == 8 {
        '8'
    } else {
        '9'
    }
}

/// The decimal numeral of `n`, without leading zeros.
pub open spec fn decimal(n: nat) -> Seq<char>
    decreases n,
{
    if n < 10 {
        seq![digit_char(n as int)]
    } else {
        decimal(n / 10).push(digit_char((n % 10) as int))
    }
}

/// The decimal numeral of `n`, with a leading minus sign when negative.
pub open spec fn signed_decimal(n: int) -> Seq<char> {
    if n < 0 {
        seq!['-'] + decimal((-n) as nat)
    } else {
        decimal(n as nat)
    }
}

fn digit(d: u128) -> (r: char)
    requires
        d < 10,
    ensures
        r == digit_char(d as int),
{
    if d == 0 {
        '0'
    } else if d == 1 {
        '1'
    } else if d == 2 {
        '2'
    } else if d == 3 {
        '3'
    } else if d == 4 {
        '4'
    } else if d == 5 {
        '5'
    } else if d == 6 {
        '6'
    } else if d == 7 {
        '7'
    } else if d == 8 {
        '8'
    } else {
        '9'
    }
}

/// Appends the decimal numeral of `n` to `s`.
pub fn push_decimal(s: &mut String, n: u128)
    ensures
        final(s)@ == old(s)@ + decimal(n as nat),
    decreases n,
{
    if n >= 10 {
        push_decimal(s, n / 10);
    }
    push_char(s, digit(n % 10));
    proof {
        assert(old(s)@ + decimal(n as nat) =~= final(s)@);
    }
}

/// Appends the decimal numeral of `n`, signed, to `s`.
pub fn push_signed_decimal(s: &mut String, n: i128)
    ensures
        final(s)@ == old(s)@ + signed_decimal(n as int),
{
    if n < 0 {
        push_char(s, '-');
        let magnitude: u128 = (-(n + 1)) as u128 + 1;
        push_decimal(s, magnitude);
        assert(final(s)@ =~= old(s)@ + signed_decimal(n as int));
    } else {
        push_decimal(s, n as u128);
    }
}

/// The decimal numeral of `n`, with a minus sign when negative.
pub fn int_to_string(n: i128) -> (r: String)
    ensures
        r@ == signed_decimal(n as int),
{
    let mut s = String::new();
    push_signed_decimal(&mut s, n);
    assert(s@ =~= signed_decimal(n as int));
    s
}

/// `n` spaces.
pub open spec fn spaces(n: nat) -> Seq<char> {
    Seq::new(n, |k: int| ' ')
}

/// Appends `n` spaces to `s`.
pub fn push_spaces(s: &mut String, n: usize)
    ensures
        final(s)@ == old(s)@ + spaces(n as nat),
{
    let mut k: usize = 0;
    while k < n
        invariant
            k <= n,
            s@ == old(s)@ + spaces(k as nat),
        decreases n - k,
    {
        push_char(s, ' ');
        k = k + 1;
        assert(s@ =~= old(s)@ + spaces(k as nat));
    }
}

// ---------------------------------------------------------------------------
// White space and trimming

/// The characters with Unicode's White_Space property, which are those for
/// which `char::is_whitespace` holds.
pub open spec fn is_white_space(c: char) -> bool {
    let u = c as u32;
    ||| 0x09 <= u <= 0x0d
    ||| u == 0x20
    ||| u == 0x85
    ||| u == 0xa0
    ||| u == 0x1680
    ||| 0x2000 <= u <= 0x200a
    ||| u == 0x2028
    ||| u == 0x2029
    ||| u == 0x202f
    ||| u == 0x205f
    ||| u == 0x3000
}

/// Whether `c` is white space, as `is_white_space` states it.
pub fn white_space(c: char) -> (r: bool)
    ensures
        r == is_white_space(c),
{
    let u = c as u32;
    (0x09 <= u && u <= 0x0d) || u == 0x20 || u == 0x85 || u == 0xa0 || u == 0x1680 || (0x2000
        <= u && u <= 0x200a) || u == 0x2028 || u == 0x2029 || u == 0x202f || u == 0x205f || u
        == 0x3000
}

/// `s` without its leading white space.
pub open spec fn trim_start(s: Seq<char>) -> Seq<char>
    decreases s.len(),
{
    if s.len() > 0 && is_white_space(s[0]) {
        trim_start(s.drop_first())
    } else {
        s
    }
}

/// `s` without its trailing white space.
pub open spec fn trim_end(s: Seq<char>) -> Seq<char>
    decreases s.len(),
{
    if s.len() > 0 && is_white_space(s.last()) {
        trim_end(s.drop_last())
    } else {
        s
    }
}

/// `s` without leading and trailing white space.
pub open spec fn trimmed(s: Seq<char>) -> Seq<char> {
    trim_end(trim_start(s))
}

/// `s` without leading and trailing white space, as `str::trim` gives it.
pub fn trim(s: &str) -> (r: String)
    ensures
        r@ == trimmed(s@),
{
    let n = s.unicode_len();
    let mut i: usize = 0;
    assert(s@.subrange(0, n as int) =~= s@);
    while i < n && white_space(s.get_char(i))
        invariant
            n == s@.len(),
            i <= n,
            trim_start(s@) == trim_start(s@.subrange(i as int, n as int)),
        decreases n - i,
    {
        assert(s@.subrange(i as int, n as int).drop_first() =~= s@.subrange(i + 1, n as int));
        i = i + 1;
    }
    assert(trim_start(s@) == s@.subrange(i as int, n as int));
    let mut j: usize = n;
    while j > i && white_space(s.get_char(j - 1))
        invariant
            n == s@.len(),
            i <= j <= n,
            trim_end(s@.subrange(i as int, n as int)) == trim_end(s@.subrange(i as int, j as int)),
        decreases j - i,
    {
        assert(s@.subrange(i as int, j as int).drop_last() =~= s@.subrange(i as int, j - 1));
        j = j - 1;
    }
    let part = s.substring_char(i, j);
    String::from_str(part)
}

/// Whether a text field read from YAML counts as empty: nothing but white
/// space, or the YAML null `~`.
pub fn yaml_string_is_empty(s: &String) -> (r: bool)
    ensures
        r == (trimmed(s@).len() == 0 || s@ == seq!['~']),
{
    let t = trim(s.as_str());
    if t.as_str().unicode_len() == 0 {
        return true;
    }
    let n = s.as_str().unicode_len();
    if n == 1 && s.as_str().get_char(0) == '~' {
        assert(s@ =~= seq!['~']);
        true
    } else {
        false
    }
}

// ---------------------------------------------------------------------------
// Lines

/// The pieces of `s` between line feeds, as `str::split('\n')` cuts them:
/// always at least one.
pub open spec fn line_pieces(s: Seq<char>) -> Seq<Seq<char>>
    decreases s.len(),
{
    if s.len() == 0 {
        seq![Seq::empty()]
    } else {
        let p = line_pieces(s.drop_last());
        if s.last() == '\n' {
            p.push(Seq::empty())
        } else {
            p.update(p.len() - 1, p.last().push(s.last()))
        }
    }
}

/// `l` without one trailing carriage return.
pub open spec fn strip_cr(l: Seq<char>) -> Seq<char> {
    if l.len() > 0 && l.last() == '\r' {
        l.drop_last()
    } else {
        l
    }
}

/// The lines of `s`, as `str::lines` gives them: the pieces between line
/// feeds, a carriage return before a line feed dropped, and no empty last
/// line after a final line feed.
pub open spec fn lines(s: Seq<char>) -> Seq<Seq<char>> {
    let p = line_pieces(s);
    let kept = if p.last().len() == 0 {
        p.drop_last()
    } else {
        p
    };
    Seq::new(
        kept.len(),
        |k: int|
            if k < p.len() - 1 {
                strip_cr(kept[k])
            } else {
                kept[k]
            },
    )
}

/// The elements of `ls` with a line feed between each two.
pub open spec fn joined(ls: Seq<Seq<char>>) -> Seq<char>
    decreases ls.len(),
{
    if ls.len() == 0 {
        Seq::empty()
    } else if ls.len() == 1 {
        ls[0]
    } else {
        joined(ls.drop_last()) + seq!['\n'] + ls.last()
    }
}

/// A line indented by two spaces.
pub open spec fn indented(l: Seq<char>) -> Seq<char> {
    seq![' ', ' '] + l
}

/// The lines of `s`, each indented by two spaces, joined by line feeds.
pub open spec fn indented_lines(s: Seq<char>) -> Seq<char> {
    joined(lines(s).map_values(|l: Seq<char>| indented(l)))
}

/// The finished lines among the pieces `p`: all but the last, each without
/// its carriage return and indented.
spec fn finished_lines(p: Seq<Seq<char>>) -> Seq<Seq<char>> {
    Seq::new((p.len() - 1) as nat, |k: int| indented(strip_cr(p[k])))
}

proof fn lemma_line_pieces_nonempty(s: Seq<char>)
    ensures
        line_pieces(s).len() >= 1,
    decreases s.len(),
{
    if s.len() > 0 {
        lemma_line_pieces_nonempty(s.drop_last());
    }
}

/// Appends `l` to `out` with two spaces before it.
fn push_indented(out: &mut String, l: &str)
    ensures
        final(out)@ == old(out)@ + indented(l@),
{
    push_char(out, ' ');
    push_char(out, ' ');
    out.append(l);
    assert(final(out)@ =~= old(out)@ + indented(l@));
}

/// Each line of `s` indented by two spaces, the lines joined by line feeds.
pub fn pad_multiline_string(s: &str) -> (r: String)
    ensures
        r@ == indented_lines(s@),
{
    let n = s.unicode_len();
    let mut out = String::new();
    let mut cur = String::new();
    let mut finished: usize = 0;
    let mut i: usize = 0;
    while i < n
        invariant
            n == s@.len(),
            i <= n,
            finished <= i,
            line_pieces(s@.subrange(0, i as int)).len() == finished + 1,
            cur@ == line_pieces(s@.subrange(0, i as int)).last(),
            out@ == joined(finished_lines(line_pieces(s@.subrange(0, i as int)))),
        decreases n - i,
    {
        let c = s.get_char(i);
        let ghost prev = s@.subrange(0, i as int);
        let ghost p = line_pieces(prev);
        proof {
            lemma_line_pieces_nonempty(prev);
            assert(s@.subrange(0, i + 1).drop_last() =~= prev);
            assert(s@.subrange(0, i + 1).last() == c);
        }
        if c == '\n' {
            let m = cur.as_str().unicode_len();
            let line = if m > 0 && cur.as_str().get_char(m - 1) == '\r' {
                cur.as_str().substring_char(0, m - 1)
            } else {
                cur.as_str()
            };
            assert(line@ == strip_cr(p.last())) by {
                if m > 0 && cur@[m - 1] == '\r' {
                    assert(cur@.subrange(0, m - 1) =~= cur@.drop_last());
                }
            }
            let ghost before = out@;
            if finished > 0 {
                push_char(&mut out, '\n');
            }
            push_indented(&mut out, line);
            proof {
                let p2 = p.push(Seq::empty());
                let f = finished_lines(p);
                let f2 = finished_lines(p2);
                assert(f2.drop_last() =~= f);
                assert(f2.last() == indented(strip_cr(p.last())));
                if finished == 0 {
                    assert(f.len() == 0);
                    assert(out@ =~= joined(f2));
                } else {
                    assert(out@ =~= joined(f2));
                }
            }
            cur = String::new();
            finished = finished + 1;
        } else {
            push_char(&mut cur, c);
            proof {
                let p2 = p.update(p.len() - 1, p.last().push(c));
                assert(finished_lines(p2) =~= finished_lines(p));
            }
        }
        i = i + 1;
    }
    proof {
        assert(s@.subrange(0, n as int) =~= s@);
        lemma_line_pieces_nonempty(s@);
    }
    let ghost p = line_pieces(s@);
    let ghost f = finished_lines(p);
    let ghost padded = lines(s@).map_values(|l: Seq<char>| indented(l));
    if cur.as_str().unicode_len() > 0 {
        if finished > 0 {
            push_char(&mut out, '\n');
        }
        push_indented(&mut out, cur.as_str());
        proof {
            assert(padded.drop_last() =~= f);
            assert(padded.last() == indented(p.last()));
            assert(out@ =~= joined(padded));
        }
    } else {
        proof {
            assert(padded =~= f);
        }
    }
    out
}

/// A labeled field as it is printed: the label and a colon on a line of
/// its own, then each line of `s` indented by two spaces, each ending in a
/// line feed.
pub open spec fn labeled_field_text(label: Seq<char>, s: Seq<char>) -> Seq<char> {
    let body = if lines(s).len() == 0 {
        Seq::empty()
    } else {
        indented_lines(s) + seq!['\n']
    };
    label + seq![':', '\n'] + body
}

/// The text printed for the field `label` with the content `s`.
pub fn labeled_field(label: &str, s: &str) -> (r: String)
    ensures
        r@ == labeled_field_text(label@, s@),
{
    let mut out = String::from_str(label);
    push_char(&mut out, ':');
    push_char(&mut out, '\n');
    let body = pad_multiline_string(s);
    if lines_nonempty(s) {
        out.append(body.as_str());
        push_char(&mut out, '\n');
    }
    assert(out@ =~= labeled_field_text(label@, s@));
    out
}

/// Whether `s` has at least one line.
fn lines_nonempty(s: &str) -> (r: bool)
    ensures
        r == (lines(s@).len() > 0),
{
    proof {
        lemma_lines_empty(s@);
    }
    s.unicode_len() > 0
}

/// Only the empty text has no lines.
proof fn lemma_lines_empty(s: Seq<char>)
    ensures
        lines(s).len() == 0 <==> s.len() == 0,
{
    if s.len() > 0 {
        lemma_line_pieces_nonempty(s.drop_last());
        let p = line_pieces(s.drop_last());
        if s.last() != '\n' {
            assert(line_pieces(s).last() == p.last().push(s.last()));
        }
    }
}

} // verus!
