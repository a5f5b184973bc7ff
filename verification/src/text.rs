//! Whitespace tokenization of scene file lines.

use vstd::prelude::*;
use vstd::string::*;

verus! {

/// The characters with the Unicode `White_Space` property.
pub open spec fn is_ws(c: char) -> bool {
    ||| ('\u{9}' <= c && c <= '\u{d}')
    ||| c == ' '
    ||| c == '\u{85}'
    ||| c == '\u{a0}'
    ||| c == '\u{1680}'
    ||| ('\u{2000}' <= c && c <= '\u{200a}')
    ||| c == '\u{2028}'
    ||| c == '\u{2029}'
    ||| c == '\u{202f}'
    ||| c == '\u{205f}'
    ||| c == '\u{3000}'
}

/// Whether `c` is a whitespace character (as `char::is_whitespace`).
pub fn is_whitespace_char(c: char) -> (r: bool)
    ensures
        r == is_ws(c),
{
    ('\u{9}' <= c && c <= '\u{d}') || c == ' ' || c == '\u{85}' || c == '\u{a0}' || c == '\u{1680}'
        || ('\u{2000}' <= c && c <= '\u{200a}') || c == '\u{2028}' || c == '\u{2029}' || c
        == '\u{202f}' || c == '\u{205f}' || c == '\u{3000}'
}

/// Length of the maximal run of non-whitespace characters at the start of `s`.
pub open spec fn word_len(s: Seq<char>) -> nat
    decreases s.len(),
{
    if s.len() == 0 || is_ws(s[0]) {
        0
    } else {
        1 + word_len(s.drop_first())
    }
}

/// The whitespace-separated words of `s`, in order (as `str::split_whitespace`).
pub open spec fn words(s: Seq<char>) -> Seq<Seq<char>>
    decreases s.len(),
{
    if s.len() == 0 {
        Seq::empty()
    } else if is_ws(s[0]) {
        words(s.drop_first())
    } else {
        let n = word_len(s);
        proof {
            lemma_word_len_bound(s);
        }
        if n == 0 {
            Seq::empty()
        } else {
            seq![s.take(n as int)] + words(s.skip(n as int))
        }
    }
}

pub proof fn lemma_word_len_bound(s: Seq<char>)
    ensures
        word_len(s) <= s.len(),
        s.len() > 0 && !is_ws(s[0]) ==> word_len(s) > 0,
    decreases s.len(),
{
    if s.len() > 0 && !is_ws(s[0]) {
        lemma_word_len_bound(s.drop_first());
    }
}

/// `word_len` of a suffix that starts a run of non-whitespace characters ending at `j`.
proof fn lemma_word_len_run(s: Seq<char>, i: int, j: int)
    requires
        0 <= i <= j <= s.len(),
        forall|k: int| i <= k < j ==> !is_ws(#[trigger] s[k]),
        j == s.len() || is_ws(s[j]),
    ensures
        word_len(s.skip(i)) == j - i,
    decreases j - i,
{
    if i < j {
        lemma_word_len_run(s, i + 1, j);
        assert(s.skip(i).drop_first() =~= s.skip(i + 1));
    } else {
        if j < s.len() {
            assert(s.skip(i)[0] == s[j]);
        }
    }
}

/// Splits `line` into its whitespace-separated words.
pub fn split_words(line: &str) -> (r: Vec<String>)
    ensures
        r@.map_values(|w: String| w@) == words(line@),
{
    let n = line.unicode_len();
    let mut out: Vec<String> = Vec::new();
    let mut i: usize = 0;
    assert(line@.skip(0) =~= line@);
    while i < n
        invariant
            n == line@.len(),
            i <= n,
            words(line@) == out@.map_values(|w: String| w@) + words(line@.skip(i as int)),
        decreases n - i,
    {
        let c = line.get_char(i);
        if is_whitespace_char(c) {
            assert(line@.skip(i as int).drop_first() =~= line@.skip(i + 1));
            i = i + 1;
        } else {
            let mut j: usize = i + 1;
            while j < n && !is_whitespace_char(line.get_char(j))
                invariant
                    n == line@.len(),
                    i < j <= n,
                    forall|k: int| i <= k < j ==> !is_ws(#[trigger] line@[k]),
                decreases n - j,
            {
                j = j + 1;
            }
            let word = String::from_str(line.substring_char(i, j));
            proof {
                let s = line@;
                lemma_word_len_run(s, i as int, j as int);
                assert(s.skip(i as int).take((j - i) as int) =~= s.subrange(i as int, j as int));
                assert(s.skip(i as int).skip((j - i) as int) =~= s.skip(j as int));
                assert(s.skip(i as int)[0] == s[i as int]);
            }
            let ghost before = out@.map_values(|w: String| w@);
            out.push(word);
            assert(out@.map_values(|w: String| w@) =~= before.push(line@.subrange(i as int, j as int)));
            i = j;
        }
    }
    assert(line@.skip(n as int) =~= Seq::<char>::empty());
    assert(out@.map_values(|w: String| w@) + Seq::<Seq<char>>::empty() =~= out@.map_values(|w: String| w@));
    out
}


proof fn lemma_word_len_run_chars(s: Seq<char>)
    ensures
        forall|k: int| 0 <= k < word_len(s) ==> !is_ws(#[trigger] s[k]),
    decreases s.len(),
{
    lemma_word_len_bound(s);
    if s.len() > 0 && !is_ws(s[0]) {
        lemma_word_len_run_chars(s.drop_first());
        assert forall|k: int| 0 <= k < word_len(s) implies !is_ws(#[trigger] s[k]) by {
            if k > 0 {
                assert(s[k] == s.drop_first()[k - 1]);
            }
        }
    }
}

/// Every word of a line is nonempty and holds no whitespace character.
pub proof fn lemma_words_are_nonempty_runs(s: Seq<char>)
    ensures
        forall|i: int|
            0 <= i < words(s).len() ==> #[trigger] words(s)[i].len() > 0 && forall|k: int|
                0 <= k < words(s)[i].len() ==> !is_ws(words(s)[i][k]),
    decreases s.len(),
{
    if s.len() > 0 {
        if is_ws(s[0]) {
            lemma_words_are_nonempty_runs(s.drop_first());
            assert(words(s) == words(s.drop_first()));
        } else {
            let n = word_len(s);
            lemma_word_len_bound(s);
            lemma_word_len_run_chars(s);
            lemma_words_are_nonempty_runs(s.skip(n as int));
            let first = s.take(n as int);
            let rest = words(s.skip(n as int));
            assert(words(s) == seq![first] + rest);
            assert forall|i: int| 0 <= i < words(s).len() implies #[trigger] words(s)[i].len() > 0
                && forall|k: int| 0 <= k < words(s)[i].len() ==> !is_ws(words(s)[i][k]) by {
                if i == 0 {
                    assert(words(s)[0] == first);
                    assert(first.len() == n);
                    assert forall|k: int| 0 <= k < first.len() implies !is_ws(first[k]) by {
                        assert(first[k] == s[k]);
                    }
                } else {
                    assert(words(s)[i] == rest[i - 1]);
                }
            }
        }
    }
}

/// The text of an optional string.
pub open spec fn opt_text(o: Option<String>) -> Option<Seq<char>> {
    match o {
        Some(s) => Some(s@),
        None => None,
    }
}

/// Whether two strings hold the same characters.
pub fn str_eq(a: &str, b: &str) -> (r: bool)
    ensures
        r == (a@ == b@),
{
    let n = a.unicode_len();
    let m = b.unicode_len();
    if n != m {
        return false;
    }
    let mut i: usize = 0;
    while i < n
        invariant
            n == a@.len(),
            m == b@.len(),
            n == m,
            i <= n,
            forall|k: int| 0 <= k < i ==> a@[k] == b@[k],
        decreases n - i,
    {
        if a.get_char(i) != b.get_char(i) {
            return false;
        }
        i = i + 1;
    }
    assert(a@ =~= b@);
    true
}

/// The character of a decimal digit value.
pub open spec fn digit_char(d: nat) -> char {
    if d == 0 {
        '0'
    } else if d == 1 {
        '1'
    } else if d == 2 {
        '2'
    } else if d == 3 {
        '3'
    } else if d == 4 {
        '4'
    } else if d == 5 {
        '5'
    } else if d == 6 {
        '6'
    } else if d == 7 {
        '7'
    } else if d == 8 {
        '8'
    } else {
        '9'
    }
}

/// The decimal representation of `n`, without leading zeros (as `usize`'s `Display`).
pub open spec fn decimal_digits(n: nat) -> Seq<char>
    decreases n,
{
    if n < 10 {
        seq![digit_char(n)]
    } else {
        decimal_digits(n / 10) + seq![digit_char(n % 10)]
    }
}

fn digit_str(d: usize) -> (r: &'static str)
    requires
        d < 10,
    ensures
        r@ == seq![digit_char(d as nat)],
{
    proof {
        reveal_strlit("0");
        reveal_strlit("1");
        reveal_strlit("2");
        reveal_strlit("3");
        reveal_strlit("4");
        reveal_strlit("5");
        reveal_strlit("6");
        reveal_strlit("7");
        reveal_strlit("8");
        reveal_strlit("9");
    }
    if d == 0 {
        let s = "0";
        assert(s@ =~= seq!['0']);
        s
    } else if d == 1 {
        let s = "1";
        assert(s@ =~= seq!['1']);
        s
    } else if d == 2 {
        let s = "2";
        assert(s@ =~= seq!['2']);
        s
    } else if d == 3 {
        let s = "3";
        assert(s@ =~= seq!['3']);
        s
    } else if d == 4 {
        let s = "4";
        assert(s@ =~= seq!['4']);
        s
    } else if d == 5 {
        let s = "5";
        assert(s@ =~= seq!['5']);
        s
    } else if d == 6 {
        let s = "6";
        assert(s@ =~= seq!['6']);
        s
    } else if d == 7 {
        let s = "7";
        assert(s@ =~= seq!['7']);
        s
    } else if d == 8 {
        let s = "8";
        assert(s@ =~= seq!['8']);
        s
    } else {
        let s = "9";
        assert(s@ =~= seq!['9']);
        s
    }
}

/// The decimal representation of `n`.
pub fn decimal_string(n: usize) -> (r: String)
    ensures
        r@ == decimal_digits(n as nat),
{
    let mut acc = String::from_str(digit_str(n % 10));
    let mut m: usize = n / 10;
    while m > 0
        invariant
            decimal_digits(n as nat) == (if m == 0 {
                Seq::<char>::empty()
            } else {
                decimal_digits(m as nat)
            }) + acc@,
        decreases m,
    {
        let d = String::from_str(digit_str(m % 10));
        let ghost old_acc = acc@;
        acc = d.concat(acc.as_str());
        assert(decimal_digits(m as nat) == (if m / 10 == 0 {
            Seq::<char>::empty()
        } else {
            decimal_digits((m / 10) as nat)
        }) + seq![digit_char((m % 10) as nat)]);
        m = m / 10;
    }
    assert(Seq::<char>::empty() + acc@ =~= acc@);
    acc
}

} // verus!
