use vstd::prelude::*;
use vstd::string::*;

verus! {

/// The character that writes the decimal digit `d`.
pub open spec fn digit_char(d: nat) -> char {
    if d == 0 {
        '0'
    } else if d == 1 {
        '1'
    } else if d == 2 {
        '2'
    } else if d == 3 {
        '3'
    } else if d == 4 {
        '4'
    } else if d == 5 {
        '5'
    } else if d == 6 {
        '6'
    } else if d == 7 {
        '7'
    } else if d == 8 {
        '8'
    } else {
        '9'
    }
}

/// The decimal numeral of `n`: no sign, no leading zero, `"0"` for zero.
pub open spec fn decimal(n: nat) -> Seq<char>
    decreases n,
{
    if n < 10 {
        seq![digit_char(n)]
    } else {
        decimal(n / 10).push(digit_char(n % 10))
    }
}

fn digit_text(d: u128) -> (res: &'static str)
    requires
        d < 10,
    ensures
        res@ == seq![digit_char(d as nat)],
{
    proof {
        reveal_strlit("0");
        reveal_strlit("1");
        reveal_strlit("2");
        reveal_strlit("3");
        reveal_strlit("4");
        reveal_strlit("5");
        reveal_strlit("6");
        reveal_strlit("7");
        reveal_strlit("8");
        reveal_strlit("9");
    }
    let res = if d == 0 {
        "0"
    } else if d == 1 {
        "1"
    } else if d == 2 {
        "2"
    } else if d == 3 {
        "3"
    } else if d == 4 {
        "4"
    } else if d == 5 {
        "5"
    } else if d == 6 {
        "6"
    } else if d == 7 {
        "7"
    } else if d == 8 {
        "8"
    } else {
        "9"
    };
    assert(res@ =~= seq![digit_char(d as nat)]);
    res
}

/// Writes `n` in decimal.
pub fn decimal_string_wide(n: u128) -> (res: String)
    ensures
        res@ == decimal(n as nat),
    decreases n,
{
    if n < 10 {
        String::from_str(digit_text(n))
    } else {
        let head = decimal_string_wide(n / 10);
        let res = head.concat(digit_text(n % 10));
        assert(res@ =~= decimal(n as nat));
        res
    }
}

/// Writes `n` in decimal.
pub fn decimal_string(n: u64) -> (res: String)
    ensures
        res@ == decimal(n as nat),
{
    decimal_string_wide(n as u128)
}

/// Whether a character is white space: whether it has the Unicode property
/// White_Space, which is what `char::is_whitespace` tests.
pub open spec fn is_white_space(c: char) -> bool {
    ||| '\u{9}' <= c <= '\u{d}'
    ||| c == ' '
    ||| c == '\u{85}'
    ||| c == '\u{a0}'
    ||| c == '\u{1680}'
    ||| '\u{2000}' <= c <= '\u{200a}'
    ||| c == '\u{2028}'
    ||| c == '\u{2029}'
    ||| c == '\u{202f}'
    ||| c == '\u{205f}'
    ||| c == '\u{3000}'
}

/// A text without its leading white space.
pub open spec fn trim_start(s: Seq<char>) -> Seq<char>
    decreases s.len(),
{
    if s.len() > 0 && is_white_space(s.first()) {
        trim_start(s.drop_first())
    } else {
        s
    }
}

/// A text without its trailing white space.
pub open spec fn trim_end(s: Seq<char>) -> Seq<char>
    decreases s.len(),
{
    if s.len() > 0 && is_white_space(s.last()) {
        trim_end(s.drop_last())
    } else {
        s
    }
}

/// A text without the white space at either end.
pub open spec fn trimmed(s: Seq<char>) -> Seq<char> {
    trim_end(trim_start(s))
}

/// Whether a text holds nothing but white space.
pub open spec fn blank(s: Seq<char>) -> bool {
    trimmed(s).len() == 0
}

/// Whether every character of a text is white space.
pub open spec fn all_white(s: Seq<char>) -> bool {
    forall|i: int| 0 <= i < s.len() ==> is_white_space(#[trigger] s[i])
}

/// A text that neither starts nor ends with white space is left as it is,
/// and is not blank.
pub proof fn lemma_trimmed_unpadded(s: Seq<char>)
    requires
        s.len() > 0,
        !is_white_space(s.first()),
        !is_white_space(s.last()),
    ensures
        trimmed(s) == s,
        !blank(s),
{
}

/// White space in front of a text does not change what is left of it.
pub proof fn lemma_trim_start_skips(pad: Seq<char>, rest: Seq<char>)
    requires
        all_white(pad),
    ensures
        trim_start(pad + rest) == trim_start(rest),
    decreases pad.len(),
{
    if pad.len() == 0 {
        assert(pad + rest =~= rest);
    } else {
        let s = pad + rest;
        assert(s.first() == pad[0]);
        assert(s.drop_first() =~= pad.drop_first() + rest);
        assert(all_white(pad.drop_first())) by {
            assert forall|i: int| 0 <= i < pad.drop_first().len() implies is_white_space(
                #[trigger] pad.drop_first()[i],
            ) by {
                assert(pad.drop_first()[i] == pad[i + 1]);
            }
        }
        lemma_trim_start_skips(pad.drop_first(), rest);
    }
}

/// White space behind a text does not change what is left of it.
pub proof fn lemma_trim_end_skips(rest: Seq<char>, pad: Seq<char>)
    requires
        all_white(pad),
    ensures
        trim_end(rest + pad) == trim_end(rest),
    decreases pad.len(),
{
    if pad.len() == 0 {
        assert(rest + pad =~= rest);
    } else {
        let s = rest + pad;
        assert(s.last() == pad.last());
        assert(s.drop_last() =~= rest + pad.drop_last());
        assert(all_white(pad.drop_last())) by {
            assert forall|i: int| 0 <= i < pad.drop_last().len() implies is_white_space(
                #[trigger] pad.drop_last()[i],
            ) by {
                assert(pad.drop_last()[i] == pad[i]);
            }
        }
        lemma_trim_end_skips(rest, pad.drop_last());
    }
}

/// A text between white space is what trimming leaves of the whole: the
/// white space at both ends goes, and nothing else.
pub proof fn lemma_trimmed_strips(front: Seq<char>, core: Seq<char>, back: Seq<char>)
    requires
        all_white(front),
        all_white(back),
        core.len() > 0 ==> !is_white_space(core.first()) && !is_white_space(core.last()),
    ensures
        trimmed(front + core + back) == core,
        blank(front + core + back) == (core.len() == 0),
{
    assert(front + core + back =~= front + (core + back));
    lemma_trim_start_skips(front, core + back);
    if core.len() == 0 {
        assert(core + back =~= back + Seq::<char>::empty());
        lemma_trim_start_skips(back, Seq::<char>::empty());
        assert(trimmed(front + core + back) =~= core);
    } else {
        assert((core + back).first() == core.first());
        assert(trim_start(core + back) == core + back);
        lemma_trim_end_skips(core, back);
    }
}

/// Calls `str::trim`, which removes the white space, in the sense of
/// `char::is_whitespace`, from both ends of the text.
#[verifier::external_body]
pub(crate) fn trim_text(s: &str) -> (res: &str)
    ensures
        res@ == trimmed(s@),
{
    s.trim()
}

/// The text without the white space at either end, as a new string.
pub fn trimmed_string(s: &str) -> (res: String)
    ensures
        res@ == trimmed(s@),
{
    String::from_str(trim_text(s))
}

/// Whether the text holds nothing but white space.
pub fn is_blank(s: &str) -> (res: bool)
    ensures
        res == blank(s@),
{
    trim_text(s).is_empty()
}

/// Whether two texts hold the same characters.
pub fn same_text(a: &str, b: &str) -> (res: bool)
    ensures
        res == (a@ == b@),
{
    let left = String::from_str(a);
    let right = String::from_str(b);
    left == right
}

/// The texts of a sequence of strings, in order.
pub open spec fn texts(v: Seq<String>) -> Seq<Seq<char>> {
    v.map_values(|s: String| s@)
}

/// The text of a string that may be absent.
pub open spec fn opt_text(o: Option<String>) -> Option<Seq<char>> {
    match o {
        Some(s) => Some(s@),
        None => None,
    }
}

/// The lines with a line feed between each two neighbours.
pub open spec fn joined(lines: Seq<Seq<char>>) -> Seq<char>
    decreases lines.len(),
{
    if lines.len() == 0 {
        Seq::empty()
    } else if lines.len() == 1 {
        lines[0]
    } else {
        joined(lines.drop_last()) + seq!['\n'] + lines.last()
    }
}

/// Joins the lines with a line feed between each two neighbours.
pub fn join_lines(lines: &Vec<String>) -> (res: String)
    ensures
        res@ == joined(texts(lines@)),
{
    let mut res = String::new();
    let mut i: usize = 0;
    while i < lines.len()
        invariant
            i <= lines.len(),
            res@ == joined(texts(lines@).take(i as int)),
        decreases lines.len() - i,
    {
        let ghost before = texts(lines@).take(i as int);
        let ghost after = texts(lines@).take(i + 1);
        proof {
            reveal_strlit("\n");
            assert(after.drop_last() =~= before);
            assert(after.last() == lines@[i as int]@);
            assert("\n"@ =~= seq!['\n']);
        }
        if i > 0 {
            res.append("\n");
            res.append(lines[i].as_str());
        } else {
            res.append(lines[i].as_str());
            assert(res@ =~= lines@[0]@);
        }
        i = i + 1;
    }
    assert(texts(lines@).take(i as int) =~= texts(lines@));
    res
}

/// Where the first line of a text ends: the place of its first line feed,
/// or its length where it has none.
pub open spec fn first_break(s: Seq<char>) -> int
    decreases s.len(),
{
    if s.len() == 0 || s[0] == '\n' {
        0
    } else {
        1 + first_break(s.drop_first())
    }
}

/// A line without the carriage return that stood before its line feed.
pub open spec fn without_return(line: Seq<char>) -> Seq<char> {
    if line.len() > 0 && line.last() == '\r' {
        line.drop_last()
    } else {
        line
    }
}

/// The lines of a text. A line ends with a line feed, or with a carriage
/// return and a line feed; neither belongs to the line. What stands behind
/// the last line feed is a line too, unless it is empty.
pub open spec fn text_lines(s: Seq<char>) -> Seq<Seq<char>>
    decreases s.len(),
{
    let i = first_break(s);
    if s.len() == 0 {
        Seq::empty()
    } else if i < 0 || i >= s.len() {
        seq![s]
    } else {
        seq![without_return(s.take(i))] + text_lines(s.skip(i + 1))
    }
}

/// Calls `str::lines` and copies each line: the lines of the text, in order,
/// without their line endings.
#[verifier::external_body]
pub(crate) fn split_lines(s: &str) -> (res: Vec<String>)
    ensures
        texts(res@) == text_lines(s@),
{
    s.lines().map(|line| line.to_string()).collect()
}

} // verus!
