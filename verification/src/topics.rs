//! Where the topics of a run come from.
//!
//! The topics are given on the command line or listed in a file. A topic file
//! holds one topic on each line. White space around the whole text and around
//! each line does not count; a line that holds nothing else still names a
//! topic, the empty one.

use vstd::prelude::*;

use crate::options::Args;
use crate::registry::string_views;

verus! {

/// The line feed, which ends a line.
pub const LINE_FEED: char = '\n';

/// True for the characters that Unicode gives the property `White_Space`.
pub open spec fn is_whitespace(c: char) -> bool {
    let code = c as u32;
    ||| 0x09 <= code <= 0x0D
    ||| code == 0x20
    ||| code == 0x85
    ||| code == 0xA0
    ||| code == 0x1680
    ||| 0x2000 <= code <= 0x200A
    ||| code == 0x2028
    ||| code == 0x2029
    ||| code == 0x202F
    ||| code == 0x205F
    ||| code == 0x3000
}

/// The number of white-space characters at the start of `s`.
pub open spec fn leading_whitespace(s: Seq<char>) -> nat
    decreases s.len(),
{
    if s.len() > 0 && is_whitespace(s[0]) {
        1 + leading_whitespace(s.drop_first())
    } else {
        0
    }
}

/// The number of white-space characters at the end of `s`.
pub open spec fn trailing_whitespace(s: Seq<char>) -> nat
    decreases s.len(),
{
    if s.len() > 0 && is_whitespace(s.last()) {
        1 + trailing_whitespace(s.drop_last())
    } else {
        0
    }
}

/// `s` without the white space at its start and at its end.
pub open spec fn trimmed(s: Seq<char>) -> Seq<char> {
    let rest = s.skip(leading_whitespace(s) as int);
    rest.take(rest.len() - trailing_whitespace(rest))
}

/// The number of characters in front of the first line feed of `s`, or the
/// length of `s` when it has none.
pub open spec fn first_line_len(s: Seq<char>) -> nat
    decreases s.len(),
{
    if s.len() == 0 || s[0] == LINE_FEED {
        0
    } else {
        1 + first_line_len(s.drop_first())
    }
}

/// The pieces of `s` between its line feeds: one more than there are line
/// feeds, some of them possibly empty.
pub open spec fn lines(s: Seq<char>) -> Seq<Seq<char>>
    decreases s.len(),
{
    let n = first_line_len(s) as int;
    if n >= s.len() {
        seq![s]
    } else {
        seq![s.take(n)] + lines(s.skip(n + 1))
    }
}

/// The topics that the text of a topic file lists: none for a text of white
/// space only, else each line of the trimmed text, trimmed.
pub open spec fn topic_list(text: Seq<char>) -> Seq<Seq<char>> {
    let body = trimmed(text);
    if body.len() == 0 {
        Seq::empty()
    } else {
        lines(body).map_values(|line: Seq<char>| trimmed(line))
    }
}

/// The first `count` characters of `s` are white space and the next one is
/// not: `count` is the amount of leading white space.
pub proof fn lemma_leading_whitespace(s: Seq<char>, count: int)
    requires
        0 <= count <= s.len(),
        forall|j: int| 0 <= j < count ==> is_whitespace(#[trigger] s[j]),
        count == s.len() || !is_whitespace(s[count]),
    ensures
        leading_whitespace(s) == count,
    decreases count,
{
    if count > 0 {
        lemma_leading_whitespace(s.drop_first(), count - 1);
    }
}

/// The last `count` characters of `s` are white space and the one before
/// them is not: `count` is the amount of trailing white space.
pub proof fn lemma_trailing_whitespace(s: Seq<char>, count: int)
    requires
        0 <= count <= s.len(),
        forall|j: int| s.len() - count <= j < s.len() ==> is_whitespace(#[trigger] s[j]),
        count == s.len() || !is_whitespace(s[s.len() - count - 1]),
    ensures
        trailing_whitespace(s) == count,
    decreases count,
{
    if count > 0 {
        lemma_trailing_whitespace(s.drop_last(), count - 1);
    }
}

/// The first `count` characters of `s` are no line feeds and the next one
/// is: `count` is the length of the first line.
pub proof fn lemma_first_line_len(s: Seq<char>, count: int)
    requires
        0 <= count <= s.len(),
        forall|j: int| 0 <= j < count ==> #[trigger] s[j] != LINE_FEED,
        count == s.len() || s[count] == LINE_FEED,
    ensures
        first_line_len(s) == count,
    decreases count,
{
    if count > 0 {
        lemma_first_line_len(s.drop_first(), count - 1);
    }
}

/// Trimmed text neither starts nor ends with white space, and trimming it
/// again changes nothing.
pub proof fn lemma_trimmed_is_trim(s: Seq<char>)
    ensures
        trimmed(s).len() > 0 ==> !is_whitespace(trimmed(s)[0]) && !is_whitespace(
            trimmed(s).last(),
        ),
        trimmed(trimmed(s)) == trimmed(s),
{
    lemma_leading_bound(s);
    lemma_trailing_bound(s.skip(leading_whitespace(s) as int));
    if trimmed(s).len() > 0 {
        lemma_leading_whitespace(trimmed(s), 0);
        lemma_trailing_whitespace(trimmed(s), 0);
    }
}

/// The leading white space of `s` lies within `s`, is white space, and ends
/// at a character that is none.
pub proof fn lemma_leading_bound(s: Seq<char>)
    ensures
        leading_whitespace(s) <= s.len(),
        forall|j: int| 0 <= j < leading_whitespace(s) ==> is_whitespace(#[trigger] s[j]),
        leading_whitespace(s) < s.len() ==> !is_whitespace(s[leading_whitespace(s) as int]),
    decreases s.len(),
{
    if s.len() > 0 && is_whitespace(s[0]) {
        let rest = s.drop_first();
        lemma_leading_bound(rest);
        assert forall|j: int| 0 <= j < leading_whitespace(s) implies is_whitespace(
            #[trigger] s[j],
        ) by {
            if j > 0 {
                assert(s[j] == rest[j - 1]);
            }
        }
    }
}

/// The trailing white space of `s` lies within `s`, is white space, and
/// starts after a character that is none.
pub proof fn lemma_trailing_bound(s: Seq<char>)
    ensures
        trailing_whitespace(s) <= s.len(),
        forall|j: int|
            s.len() - trailing_whitespace(s) <= j < s.len() ==> is_whitespace(#[trigger] s[j]),
        trailing_whitespace(s) < s.len() ==> !is_whitespace(
            s[s.len() - trailing_whitespace(s) - 1],
        ),
    decreases s.len(),
{
    if s.len() > 0 && is_whitespace(s.last()) {
        let rest = s.drop_last();
        lemma_trailing_bound(rest);
        assert forall|j: int|
            s.len() - trailing_whitespace(s) <= j < s.len() implies is_whitespace(
            #[trigger] s[j],
        ) by {
            if j < s.len() - 1 {
                assert(s[j] == rest[j]);
            }
        }
    }
}

/// Tests whether `c` is a white-space character.
pub fn whitespace(c: char) -> (b: bool)
    ensures
        b == is_whitespace(c),
{
    let code: u32 = c as u32;
    (0x09 <= code && code <= 0x0D) || code == 0x20 || code == 0x85 || code == 0xA0 || code
        == 0x1680 || (0x2000 <= code && code <= 0x200A) || code == 0x2028 || code == 0x2029
        || code == 0x202F || code == 0x205F || code == 0x3000
}

/// The characters of `text`.
fn chars_of(text: &str) -> (chars: Vec<char>)
    ensures
        chars@ == text@,
{
    let mut chars: Vec<char> = Vec::new();
    for c in it: text.chars()
        invariant
            it.seq() == text@,
            chars@ == it.seq().take(it.index()),
    {
        chars.push(c);
    }
    chars
}

/// Finds the part of `chars[from..to]` that is left when the white space at
/// both ends is taken away.
fn trim_range(chars: &Vec<char>, from: usize, to: usize) -> (range: (usize, usize))
    requires
        from <= to <= chars@.len(),
    ensures
        from <= range.0 <= range.1 <= to,
        chars@.subrange(range.0 as int, range.1 as int) == trimmed(
            chars@.subrange(from as int, to as int),
        ),
{
    let ghost s = chars@.subrange(from as int, to as int);
    let mut start: usize = from;
    while start < to && whitespace(chars[start])
        invariant
            from <= start <= to <= chars@.len(),
            forall|j: int| from <= j < start ==> is_whitespace(#[trigger] chars@[j]),
        decreases to - start,
    {
        start = start + 1;
    }
    let mut end: usize = to;
    while end > start && whitespace(chars[end - 1])
        invariant
            start <= end <= to <= chars@.len(),
            forall|j: int| end <= j < to ==> is_whitespace(#[trigger] chars@[j]),
        decreases end - start,
    {
        end = end - 1;
    }
    proof {
        lemma_leading_whitespace(s, start - from);
        lemma_trailing_whitespace(s.skip(start - from), to - end);
    }
    (start, end)
}

/// Reads the text of a topic file: the topics it lists, in their order.
pub fn parse_topic_list(text: &str) -> (topics: Vec<String>)
    ensures
        string_views(topics@) == topic_list(text@),
{
    let chars = chars_of(text);
    let (start, end) = trim_range(&chars, 0, chars.len());
    let mut topics: Vec<String> = Vec::new();
    assert(chars@.subrange(0, chars@.len() as int) =~= text@);
    if start == end {
        return topics;
    }
    let mut line_start: usize = start;
    let mut done = false;
    while !done
        invariant
            chars@ == text@,
            start <= line_start <= end <= chars@.len(),
            !done ==> topic_list(text@) == string_views(topics@) + lines(
                chars@.subrange(line_start as int, end as int),
            ).map_values(|line: Seq<char>| trimmed(line)),
            done ==> topic_list(text@) == string_views(topics@),
        decreases end - line_start + (if done { 0int } else { 1int }),
    {
        let ghost tail = chars@.subrange(line_start as int, end as int);
        let mut line_end: usize = line_start;
        while line_end < end && chars[line_end] != LINE_FEED
            invariant
                line_start <= line_end <= end <= chars@.len(),
                forall|j: int| line_start <= j < line_end ==> #[trigger] chars@[j] != LINE_FEED,
            decreases end - line_end,
        {
            line_end = line_end + 1;
        }
        let (a, b) = trim_range(&chars, line_start, line_end);
        let topic = String::from_str(text.substring_char(a, b));
        topics.push(topic);
        proof {
            lemma_first_line_len(tail, line_end - line_start);
            assert(tail.take(line_end - line_start) =~= chars@.subrange(
                line_start as int,
                line_end as int,
            ));
            if line_end < end {
                assert(tail.skip(line_end - line_start + 1) =~= chars@.subrange(
                    line_end + 1,
                    end as int,
                ));
            }
        }
        if line_end == end {
            done = true;
        } else {
            line_start = line_end + 1;
        }
    }
    topics
}

/// Where the topics of a run are to be taken from.
#[derive(Debug, PartialEq, Eq)]
pub enum TopicSource {
    /// From the file at `path`, to be read and handed to
    /// [`parse_topic_list`]. A file that cannot be read ends the program.
    File { path: String },
    /// From the command line.
    Given { topics: Vec<String> },
}

/// Decides where the topics of a run come from: a topic file, when one is
/// named, takes the place of the topics on the command line.
pub fn initialize_topics(args: &Args) -> (source: TopicSource)
    ensures
        match args.topics_file {
            Some(path) => source matches TopicSource::File { path: p } && p@ == path@,
            None => source matches TopicSource::Given { topics } && string_views(topics@)
                == string_views(args.topics@),
        },
{
    match &args.topics_file {
        Some(path) => TopicSource::File { path: path.clone() },
        None => {
            let mut topics: Vec<String> = Vec::new();
            let mut i: usize = 0;
            while i < args.topics.len()
                invariant
                    i <= args.topics.len(),
                    string_views(topics@) == string_views(args.topics@).take(i as int),
                decreases args.topics.len() - i,
            {
                let ghost before = string_views(topics@);
                let topic = args.topics[i].clone();
                topics.push(topic);
                assert(string_views(topics@) =~= before.push(topic@));
                i = i + 1;
            }
            TopicSource::Given { topics }
        },
    }
}

} // verus!
