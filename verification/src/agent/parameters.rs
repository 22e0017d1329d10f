//! The `key: value` lines that make up the payload of many responses.

use crate::agent::hyperdeck::find_first;
use crate::registry::Registry;
use vstd::prelude::*;
use vstd::std_specs::iter::IteratorSpec;
use vstd::string::{spec_iter, StrSliceExecFns, StringExecFns};

verus! {

broadcast use vstd::string::group_string_axioms;

/// Whether a character is white space: one of the characters with the
/// Unicode property `White_Space`.
pub open spec fn is_whitespace(c: char) -> bool {
    let n = c as u32;
    ||| 0x09 <= n <= 0x0d
    ||| n == 0x20
    ||| n == 0x85
    ||| n == 0xa0
    ||| n == 0x1680
    ||| 0x2000 <= n <= 0x200a
    ||| n == 0x2028
    ||| n == 0x2029
    ||| n == 0x202f
    ||| n == 0x205f
    ||| n == 0x3000
}

/// A text without the white space at its start.
pub open spec fn trim_start(text: Seq<char>) -> Seq<char>
    decreases text.len(),
{
    if text.len() > 0 && is_whitespace(text.first()) {
        trim_start(text.drop_first())
    } else {
        text
    }
}

/// A text without the white space at its end.
pub open spec fn trim_end(text: Seq<char>) -> Seq<char>
    decreases text.len(),
{
    if text.len() > 0 && is_whitespace(text.last()) {
        trim_end(text.drop_last())
    } else {
        text
    }
}

/// A text without the white space at either end.
pub open spec fn trim(text: Seq<char>) -> Seq<char> {
    trim_end(trim_start(text))
}

/// A line without the carriage return at its end, if it has one.
pub open spec fn without_carriage_return(line: Seq<char>) -> Seq<char> {
    if line.len() > 0 && line.last() == '\r' {
        line.drop_last()
    } else {
        line
    }
}

/// The lines of a text. A line ends in a line feed, before which a
/// carriage return is dropped; what stands behind the last line feed is a
/// line too, unless it is empty.
pub open spec fn text_lines(text: Seq<char>) -> Seq<Seq<char>>
    decreases text.len(),
{
    if text.len() == 0 {
        Seq::empty()
    } else {
        let end = find_first(text, '\n', 0);
        if end >= text.len() {
            seq![text]
        } else {
            seq![without_carriage_return(text.take(end))] + text_lines(text.skip(end + 1))
        }
    }
}

/// The parameter that a line states: the key before the first colon and
/// the value behind it, both trimmed. A line without a colon states none.
pub open spec fn parameter_of(line: Seq<char>) -> Option<(Seq<char>, Seq<char>)> {
    let colon = find_first(line, ':', 0);
    if colon >= line.len() {
        None
    } else {
        Some((trim(line.take(colon)), trim(line.skip(colon + 1))))
    }
}

/// The pairs that the lines of a payload state, in the order of the lines;
/// `None` where a line states none.
pub open spec fn pairs_of(payload: Seq<char>) -> Option<Seq<(Seq<char>, Seq<char>)>> {
    let lines = text_lines(payload);
    if forall|i: int| 0 <= i < lines.len() ==> parameter_of(#[trigger] lines[i]) is Some {
        Some(lines.map_values(|line: Seq<char>| parameter_of(line)->0))
    } else {
        None
    }
}

/// What a list of pairs gives each key: the value of the last pair with
/// that key, so that a key stated twice has its later value and stands
/// once.
pub open spec fn as_map(pairs: Seq<(Seq<char>, Seq<char>)>) -> Map<Seq<char>, Seq<char>>
    decreases pairs.len(),
{
    if pairs.len() == 0 {
        Map::empty()
    } else {
        as_map(pairs.drop_last()).insert(pairs.last().0, pairs.last().1)
    }
}

/// The parameters that a payload states: for each key the value that its
/// last line gives it; `None` where a line states no parameter.
pub open spec fn parameters_of(payload: Seq<char>) -> Option<Map<Seq<char>, Seq<char>>> {
    match pairs_of(payload) {
        Some(pairs) => Some(as_map(pairs)),
        None => None,
    }
}

/// The text of an optional value: empty when there is none.
pub open spec fn value_or_empty(value: Option<Seq<char>>) -> Seq<char> {
    match value {
        Some(text) => text,
        None => Seq::empty(),
    }
}

/// The payload of a response could not be read as parameters: a line has
/// no colon.
#[derive(Clone, Copy, Debug, PartialEq, Eq)]
pub struct MalformedParameters {}

/// The parameters of a response: for each key one value. They are held in
/// a [`Registry`], whose invariant is that no key stands twice; a key that
/// the payload states again replaces its value.
#[derive(Debug)]
pub struct Parameters {
    entries: Registry<String>,
}

impl View for Parameters {
    type V = Map<Seq<char>, Seq<char>>;

    closed spec fn view(&self) -> Map<Seq<char>, Seq<char>> {
        self.entries@.map_values(|value: String| value@)
    }
}

impl Parameters {
    /// No parameters.
    pub fn new() -> (parameters: Self)
        ensures
            parameters@ == Map::<Seq<char>, Seq<char>>::empty(),
    {
        let parameters = Parameters { entries: Registry::new() };
        assert(parameters@ =~= Map::<Seq<char>, Seq<char>>::empty());
        parameters
    }

    /// Number of keys.
    pub fn len(&self) -> (n: usize)
        ensures
            n == self@.dom().len(),
    {
        assert(self@.dom() =~= self.entries@.dom());
        self.entries.len()
    }

    /// Gives `key` the value `value`, in place of the value that it had.
    pub fn insert(&mut self, key: String, value: String)
        ensures
            final(self)@ == old(self)@.insert(key@, value@),
    {
        let _ = self.entries.insert(key, value);
        assert(self@ =~= old(self)@.insert(key@, value@));
    }

    /// The value of a key, if the key was stated; its latest value, if it
    /// was stated more than once.
    pub fn get(&self, key: &str) -> (value: Option<&String>)
        ensures
            value.deep_view() == self@.get(key@),
    {
        self.entries.get(key)
    }

    /// The value of a key as a text of its own; the empty text where the
    /// key was not stated.
    pub fn get_or_empty(&self, key: &str) -> (value: String)
        ensures
            value@ == value_or_empty(self@.get(key@)),
    {
        match self.get(key) {
            Some(value) => value.clone(),
            None => String::new(),
        }
    }
}

/// Whether a character is white space.
pub fn whitespace(c: char) -> (yes: bool)
    ensures
        yes == is_whitespace(c),
{
    let n = c as u32;
    (0x09 <= n && n <= 0x0d) || n == 0x20 || n == 0x85 || n == 0xa0 || n == 0x1680 || (0x2000 <= n
        && n <= 0x200a) || n == 0x2028 || n == 0x2029 || n == 0x202f || n == 0x205f || n == 0x3000
}

fn chars_of(text: &str) -> (chars: Vec<char>)
    ensures
        chars@ == text@,
{
    let mut chars: Vec<char> = Vec::new();
    for c in it: text.chars()
        invariant
            it.seq() == text@,
            chars@ == it.seq().take(it.index()),
    {
        chars.push(c);
        assert(chars@ =~= it.seq().take(it.index() + 1));
    }
    assert(chars@ =~= text@);
    chars
}

fn find_char(chars: &Vec<char>, c: char, from: usize, to: usize) -> (at: usize)
    requires
        from <= to <= chars.len(),
    ensures
        from <= at <= to,
        at - from == find_first(chars@.subrange(from as int, to as int), c, 0),
        at < to ==> chars[at as int] == c,
{
    let ghost part = chars@.subrange(from as int, to as int);
    let mut at = from;
    while at < to && chars[at] != c
        invariant
            from <= at <= to <= chars.len(),
            part == chars@.subrange(from as int, to as int),
            find_first(part, c, 0) == find_first(part, c, at - from),
        decreases to - at,
    {
        assert(part[at - from] == chars[at as int]);
        at += 1;
    }
    proof {
        if at < to {
            assert(part[at - from] == chars[at as int]);
        }
    }
    at
}

/// Gives the bounds of `chars[from..to]` without the white space at either
/// end.
fn trim_bounds(chars: &Vec<char>, from: usize, to: usize) -> (bounds: (usize, usize))
    requires
        from <= to <= chars.len(),
    ensures
        from <= bounds.0 <= bounds.1 <= to,
        chars@.subrange(bounds.0 as int, bounds.1 as int) == trim(
            chars@.subrange(from as int, to as int),
        ),
{
    let mut start = from;
    while start < to && whitespace(chars[start])
        invariant
            from <= start <= to <= chars.len(),
            trim_start(chars@.subrange(from as int, to as int)) == trim_start(
                chars@.subrange(start as int, to as int),
            ),
        decreases to - start,
    {
        assert(chars@.subrange(start as int, to as int).drop_first() =~= chars@.subrange(
            start + 1,
            to as int,
        ));
        start += 1;
    }
    let mut end = to;
    while end > start && whitespace(chars[end - 1])
        invariant
            start <= end <= to <= chars.len(),
            trim_end(chars@.subrange(start as int, to as int)) == trim_end(
                chars@.subrange(start as int, end as int),
            ),
        decreases end - start,
    {
        assert(chars@.subrange(start as int, end as int).drop_last() =~= chars@.subrange(
            start as int,
            end - 1,
        ));
        end -= 1;
    }
    (start, end)
}

fn text_between(text: &str, from: usize, to: usize) -> (part: String)
    requires
        from <= to <= text@.len(),
    ensures
        part@ == text@.subrange(from as int, to as int),
{
    String::from_str(text.substring_char(from, to))
}

/// Reads the parameter that the line `chars[from..to]` states.
fn read_parameter(text: &str, chars: &Vec<char>, from: usize, to: usize) -> (pair: Option<
    (String, String),
>)
    requires
        chars@ == text@,
        from <= to <= chars.len(),
    ensures
        pair.deep_view() == parameter_of(chars@.subrange(from as int, to as int)),
{
    let ghost line = chars@.subrange(from as int, to as int);
    let colon = find_char(chars, ':', from, to);
    if colon >= to {
        return None;
    }
    let key = trim_bounds(chars, from, colon);
    let value = trim_bounds(chars, colon + 1, to);
    proof {
        assert(line.take(colon - from) =~= chars@.subrange(from as int, colon as int));
        assert(line.skip(colon - from + 1) =~= chars@.subrange(colon + 1, to as int));
    }
    Some((text_between(text, key.0, key.1), text_between(text, value.0, value.1)))
}

/// Reads a payload as parameters: one `key: value` pair to the line, key
/// and value trimmed. A key that a later line states again takes the later
/// value. A line without a colon makes the whole payload malformed.
pub fn read_parameters(payload: &str) -> (parameters: Result<Parameters, MalformedParameters>)
    ensures
        match parameters_of(payload@) {
            Some(stated) => parameters matches Ok(found) && found@ == stated,
            None => parameters is Err,
        },
{
    let chars = chars_of(payload);
    let mut parameters = Parameters::new();
    let ghost mut lines: Seq<Seq<char>> = Seq::empty();
    let ghost pair_of = |line: Seq<char>| parameter_of(line)->0;
    let mut at: usize = 0;
    proof {
        assert(chars@.skip(0) =~= chars@);
        assert(lines + text_lines(chars@.skip(0)) =~= text_lines(chars@));
        assert(lines.map_values(pair_of) =~= Seq::empty());
    }
    while at < chars.len()
        invariant
            at <= chars.len(),
            chars@ == payload@,
            pair_of == |line: Seq<char>| parameter_of(line)->0,
            text_lines(chars@) == lines + text_lines(chars@.skip(at as int)),
            forall|i: int| 0 <= i < lines.len() ==> parameter_of(#[trigger] lines[i]) is Some,
            parameters@ == as_map(lines.map_values(pair_of)),
        decreases chars.len() - at,
    {
        let ghost rest = chars@.skip(at as int);
        let end = find_char(&chars, '\n', at, chars.len());
        assert(chars@.subrange(at as int, chars.len() as int) =~= rest);
        let stop = if end < chars.len() && end > at && chars[end - 1] == '\r' {
            end - 1
        } else {
            end
        };
        let ghost line = chars@.subrange(at as int, stop as int);
        proof {
            if end < chars.len() {
                assert(rest.take(end - at) =~= chars@.subrange(at as int, end as int));
                assert(line =~= without_carriage_return(rest.take(end - at)));
                assert(rest.skip(end - at + 1) =~= chars@.skip(end + 1));
                assert(text_lines(rest) == seq![line] + text_lines(chars@.skip(end + 1)));
                assert(lines + (seq![line] + text_lines(chars@.skip(end + 1))) =~= lines.push(line)
                    + text_lines(chars@.skip(end + 1)));
            } else {
                assert(line =~= rest);
                assert(text_lines(rest) == seq![line]);
                assert(chars@.skip(chars.len() as int) =~= Seq::<char>::empty());
                assert(lines + seq![line] =~= lines.push(line) + text_lines(
                    chars@.skip(chars.len() as int),
                ));
            }
        }
        match read_parameter(payload, &chars, at, stop) {
            Some((key, value)) => {
                proof {
                    let pairs = lines.map_values(pair_of);
                    let longer = lines.push(line).map_values(pair_of);
                    assert(longer.drop_last() =~= pairs);
                    assert(longer.last() == (key@, value@));
                }
                parameters.insert(key, value);
            },
            None => {
                proof {
                    let all = text_lines(chars@);
                    assert(all[lines.len() as int] == line);
                }
                return Err(MalformedParameters {  });
            },
        }
        proof {
            lines = lines.push(line);
        }
        at = if end < chars.len() {
            end + 1
        } else {
            end
        };
    }
    proof {
        assert(chars@.skip(at as int) =~= Seq::<char>::empty());
        assert(text_lines(chars@) =~= lines);
    }
    Ok(parameters)
}

} // verus!
