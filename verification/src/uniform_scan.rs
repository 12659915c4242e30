use regex::Regex;
use vstd::prelude::*;
use vstd::std_specs::iter::IteratorSpec;
use vstd::string::StrSliceExecFns;
use vstd::string::StringExecFns;

verus! {

/// What each of `texts` holds, in order.
pub open spec fn string_views(texts: Seq<String>) -> Seq<Seq<char>> {
    Seq::new(texts.len(), |i: int| texts[i]@)
}

/// What each pair of `pairs` holds, in order.
pub open spec fn pair_views(pairs: Seq<(String, String)>) -> Seq<(Seq<char>, Seq<char>)> {
    Seq::new(pairs.len(), |i: int| (pairs[i].0@, pairs[i].1@))
}

/// The characters of a text, one by one.
pub fn to_chars(text: &str) -> (chars: Vec<char>)
    ensures
        chars@ == text@,
{
    let mut chars: Vec<char> = Vec::new();
    for c in it: text.chars()
        invariant
            it.seq() == text@,
            chars@ == text@.take(it.index() as int),
    {
        chars.push(c);
        assert(text@.take(it.index() + 1) =~= text@.take(it.index() as int).push(c));
    }
    assert(text@.take(text@.len() as int) =~= text@);
    chars
}

/// The number of characters of `text` before its first line feed, or all of
/// them where it has none.
pub open spec fn line_len(text: Seq<char>) -> nat
    decreases text.len(),
{
    if text.len() == 0 || text[0] == '\n' {
        0
    } else {
        1 + line_len(text.skip(1))
    }
}

/// The lines of `text`. A line ends before a line feed or at the end of the
/// text, and a line feed at the very end starts no further line.
pub open spec fn lines(text: Seq<char>) -> Seq<Seq<char>>
    decreases text.len(),
{
    if text.len() == 0 {
        Seq::empty()
    } else if line_len(text) >= text.len() {
        seq![text]
    } else {
        seq![text.take(line_len(text) as int)] + lines(text.skip(line_len(text) as int + 1))
    }
}

/// A stretch of `n` characters without a line feed that ends the text or is
/// followed by a line feed is the first line.
proof fn lemma_line_len(text: Seq<char>, n: int)
    requires
        0 <= n <= text.len(),
        forall|k: int| 0 <= k < n ==> text[k] != '\n',
        n == text.len() || text[n] == '\n',
    ensures
        line_len(text) == n,
    decreases n,
{
    if n > 0 {
        let rest = text.skip(1);
        assert forall|k: int| 0 <= k < n - 1 implies rest[k] != '\n' by {
            assert(rest[k] == text[k + 1]);
        }
        lemma_line_len(rest, n - 1);
    }
}

/// Where each line of `text` starts, and where it ends.
pub fn line_ranges(text: &Vec<char>) -> (ranges: Vec<(usize, usize)>)
    ensures
        ranges@.len() == lines(text@).len(),
        forall|i: int|
            0 <= i < ranges@.len() ==> {
                &&& (#[trigger] ranges@[i]).0 <= ranges@[i].1 <= text@.len()
                &&& text@.subrange(ranges@[i].0 as int, ranges@[i].1 as int) == lines(text@)[i]
            },
{
    let mut ranges: Vec<(usize, usize)> = Vec::new();
    let mut start: usize = 0;
    let ghost mut done: Seq<Seq<char>> = Seq::empty();
    assert(text@.skip(0) =~= text@);
    assert(lines(text@) =~= done + lines(text@.skip(0)));
    while start < text.len()
        invariant
            start <= text@.len(),
            lines(text@) == done + lines(text@.skip(start as int)),
            ranges@.len() == done.len(),
            forall|i: int|
                0 <= i < ranges@.len() ==> {
                    &&& (#[trigger] ranges@[i]).0 <= ranges@[i].1 <= text@.len()
                    &&& text@.subrange(ranges@[i].0 as int, ranges@[i].1 as int) == done[i]
                },
        decreases text@.len() - start,
    {
        let mut end: usize = start;
        while end < text.len() && text[end] != '\n'
            invariant
                start <= end <= text@.len(),
                forall|k: int| start <= k < end ==> text@[k] != '\n',
            decreases text@.len() - end,
        {
            end += 1;
        }
        proof {
            let rest = text@.skip(start as int);
            lemma_line_len(rest, end - start);
            let line = text@.subrange(start as int, end as int);
            if end < text@.len() {
                assert(rest.take(end - start) =~= line);
                assert(rest.skip(end - start + 1) =~= text@.skip(end + 1));
                assert(lines(text@) =~= done.push(line) + lines(text@.skip(end + 1)));
            } else {
                assert(rest =~= line);
                assert(text@.skip(text@.len() as int) =~= Seq::<char>::empty());
                assert(lines(text@) =~= done.push(line) + lines(
                    text@.skip(text@.len() as int),
                ));
            }
            done = done.push(line);
        }
        ranges.push((start, end));
        if end < text.len() {
            start = end + 1;
        } else {
            start = end;
        }
    }
    assert(lines(text@) =~= done);
    ranges
}

/// The word that a uniform declaration begins with.
pub open spec fn keyword() -> Seq<char> {
    seq!['u', 'n', 'i', 'f', 'o', 'r', 'm']
}

/// The pattern of one word: a run of word characters.
pub open spec fn word_pattern() -> Seq<char> {
    "\\w+"@
}

/// The non-overlapping matches of the regular expression `pattern` in
/// `haystack`, from left to right, as the `regex` crate finds them. There
/// are none to speak of where the crate does not accept the pattern.
pub uninterp spec fn regex_find_all(pattern: Seq<char>, haystack: Seq<char>) -> Option<Seq<Seq<char>>>;

/// Compiles `pattern` with `regex::Regex::new` and collects the texts of the
/// matches that `Regex::find_iter` yields for `haystack`. The contract only
/// gives the outcome its name: what the crate matches is not stated here.
#[verifier::external_body]
fn find_all(pattern: &str, haystack: &str) -> (found: Option<Vec<String>>)
    ensures
        match found {
            Some(words) => regex_find_all(pattern@, haystack@) == Some(string_views(words@)),
            None => regex_find_all(pattern@, haystack@) is None,
        },
{
    match Regex::new(pattern) {
        Ok(expression) => Some(
            expression.find_iter(haystack).map(|found| found.as_str().to_owned()).collect(),
        ),
        Err(_) => None,
    }
}

/// The name in the words that follow the keyword of a declaration: the
/// second word, behind the type.
pub open spec fn second_word(words: Option<Seq<Seq<char>>>) -> Option<Seq<char>> {
    match words {
        Some(words) => if words.len() >= 2 {
            Some(words[1])
        } else {
            None
        },
        None => None,
    }
}

/// The name in the words that follow the keyword of a declaration: the
/// second word, behind the type.
pub fn declared_name(words: Option<Vec<String>>) -> (name: Option<String>)
    ensures
        match name {
            Some(name) => second_word(
                match words {
                    Some(words) => Some(string_views(words@)),
                    None => None,
                },
            ) == Some(name@),
            None => second_word(
                match words {
                    Some(words) => Some(string_views(words@)),
                    None => None,
                },
            ) is None,
        },
{
    match words {
        Some(words) => {
            if words.len() >= 2 {
                Some(words[1].clone())
            } else {
                None
            }
        },
        None => None,
    }
}

/// The name of the uniform that `line` declares. A line declares one where
/// it begins with the keyword, and where two words follow the character
/// behind the keyword: the second is the name.
pub open spec fn declaration(line: Seq<char>) -> Option<Seq<char>> {
    if line.len() >= 8 && line.take(7) == keyword() {
        second_word(regex_find_all(word_pattern(), line.skip(8)))
    } else {
        None
    }
}

/// The character of a decimal digit.
pub open spec fn digit(d: nat) -> char {
    if d == 0 {
        '0'
    } else if d == 1 {
        '1'
    } else if d == 2 {
        '2'
    } else if d == 3 {
        '3'
    } else if d == 4 {
        '4'
    } else if d == 5 {
        '5'
    } else if d == 6 {
        '6'
    } else if d == 7 {
        '7'
    } else if d == 8 {
        '8'
    } else {
        '9'
    }
}

/// The decimal digits of `n`, without leading zeros.
pub open spec fn decimal(n: nat) -> Seq<char>
    decreases n,
{
    if n < 10 {
        seq![digit(n)]
    } else {
        decimal(n / 10).push(digit(n % 10))
    }
}

/// The text of a decimal digit.
fn digit_text(d: usize) -> (text: &'static str)
    requires
        d < 10,
    ensures
        text@ == seq![digit(d as nat)],
{
    proof {
        reveal_strlit("0");
        reveal_strlit("1");
        reveal_strlit("2");
        reveal_strlit("3");
        reveal_strlit("4");
        reveal_strlit("5");
        reveal_strlit("6");
        reveal_strlit("7");
        reveal_strlit("8");
        reveal_strlit("9");
    }
    let text = if d == 0 {
        "0"
    } else if d == 1 {
        "1"
    } else if d == 2 {
        "2"
    } else if d == 3 {
        "3"
    } else if d == 4 {
        "4"
    } else if d == 5 {
        "5"
    } else if d == 6 {
        "6"
    } else if d == 7 {
        "7"
    } else if d == 8 {
        "8"
    } else {
        "9"
    };
    assert(text@ =~= seq![digit(d as nat)]);
    text
}

/// The decimal digits of `n`, without leading zeros.
pub fn decimal_text(n: usize) -> (text: String)
    ensures
        text@ == decimal(n as nat),
    decreases n,
{
    if n < 10 {
        String::from_str(digit_text(n))
    } else {
        let mut text = decimal_text(n / 10);
        text.append(digit_text(n % 10));
        assert(text@ =~= decimal(n as nat));
        text
    }
}

/// The place of a declaration, for error reports: the file and the number
/// of the line, with a colon between them.
pub open spec fn location_label(filename: Seq<char>, line: nat) -> Seq<char> {
    filename + seq![':'] + decimal(line)
}

/// The uniforms that `lines` declare, each with its name and the place of
/// its declaration in the file `filename`. Lines are counted from one.
pub open spec fn declarations(lines: Seq<Seq<char>>, filename: Seq<char>) -> Seq<
    (Seq<char>, Seq<char>),
>
    decreases lines.len(),
{
    if lines.len() == 0 {
        Seq::empty()
    } else {
        let before = declarations(lines.drop_last(), filename);
        match declaration(lines.last()) {
            Some(name) => before.push((name, location_label(filename, lines.len()))),
            None => before,
        }
    }
}

/// Whether the line of `text` from `start` to `end` begins with the
/// keyword and goes on behind it.
fn begins_declaration(text: &Vec<char>, start: usize, end: usize) -> (begins: bool)
    requires
        start <= end <= text@.len(),
    ensures
        begins == (end - start >= 8 && text@.subrange(start as int, end as int).take(7)
            == keyword()),
{
    if end - start < 8 {
        return false;
    }
    let ghost line = text@.subrange(start as int, end as int);
    let begins = text[start] == 'u' && text[start + 1] == 'n' && text[start + 2] == 'i' && text[start
        + 3] == 'f' && text[start + 4] == 'o' && text[start + 5] == 'r' && text[start + 6] == 'm';
    proof {
        if begins {
            assert(line.take(7) =~= keyword());
        } else {
            assert(line.take(7)[0] == text@[start as int]);
            assert(line.take(7)[1] == text@[start + 1]);
            assert(line.take(7)[2] == text@[start + 2]);
            assert(line.take(7)[3] == text@[start + 3]);
            assert(line.take(7)[4] == text@[start + 4]);
            assert(line.take(7)[5] == text@[start + 5]);
            assert(line.take(7)[6] == text@[start + 6]);
        }
    }
    begins
}

/// Scans the source of a shader for the uniforms that it declares, line by
/// line, and gives each with its name and with the place of its declaration
/// in the file `filename`. Only declarations of the form `uniform`, type,
/// name on one line are found.
pub fn find_uniforms(source: &str, filename: &str) -> (uniforms: Vec<(String, String)>)
    ensures
        pair_views(uniforms@) == declarations(lines(source@), filename@),
{
    let text = to_chars(source);
    let ranges = line_ranges(&text);
    let mut uniforms: Vec<(String, String)> = Vec::new();
    let mut i: usize = 0;
    assert(lines(source@).take(0) =~= Seq::<Seq<char>>::empty());
    assert(pair_views(uniforms@) =~= declarations(lines(source@).take(0), filename@));
    while i < ranges.len()
        invariant
            i <= ranges@.len(),
            text@ == source@,
            ranges@.len() == lines(text@).len(),
            forall|k: int|
                0 <= k < ranges@.len() ==> {
                    &&& (#[trigger] ranges@[k]).0 <= ranges@[k].1 <= text@.len()
                    &&& text@.subrange(ranges@[k].0 as int, ranges@[k].1 as int) == lines(text@)[k]
                },
            pair_views(uniforms@) == declarations(lines(source@).take(i as int), filename@),
        decreases ranges@.len() - i,
    {
        let (start, end) = ranges[i];
        let ghost line = lines(source@)[i as int];
        let ghost before = pair_views(uniforms@);
        assert(lines(source@).take(i + 1).drop_last() =~= lines(source@).take(i as int));
        assert(lines(source@).take(i + 1).last() == line);
        if begins_declaration(&text, start, end) {
            let rest = source.substring_char(start + 8, end);
            assert(rest@ =~= line.skip(8));
            let words = find_all("\\w+", rest);
            match declared_name(words) {
                Some(name) => {
                    let mut place = String::from_str(filename);
                    place.append(":");
                    let number = decimal_text(i + 1);
                    place.append(number.as_str());
                    proof {
                        reveal_strlit(":");
                        assert(place@ =~= location_label(filename@, (i + 1) as nat));
                    }
                    uniforms.push((name, place));
                    assert(pair_views(uniforms@) =~= before.push(
                        (name@, location_label(filename@, (i + 1) as nat)),
                    ));
                },
                None => {},
            }
        }
        i += 1;
    }
    assert(lines(source@).take(ranges@.len() as int) =~= lines(source@));
    uniforms
}

} // verus!
