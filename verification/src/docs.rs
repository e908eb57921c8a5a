//! The per-parameter documentation convention: one line of the shape
//! `` `name` - description ``, possibly with a leading list marker. Each
//! line names one parameter; the lines of one function together form a map
//! from parameter name to description text. A line that does not follow
//! the convention is a registration-time error, never silently dropped.

use vstd::prelude::*;
use crate::text::str_eq;

verus! {

/// A word character: an ASCII letter, digit, or underscore. The separator
/// after the backtick-quoted name must be made of non-word characters.
pub open spec fn spec_is_word_char(c: char) -> bool {
    ||| ('a' as u32) <= (c as u32) && (c as u32) <= ('z' as u32)
    ||| ('A' as u32) <= (c as u32) && (c as u32) <= ('Z' as u32)
    ||| ('0' as u32) <= (c as u32) && (c as u32) <= ('9' as u32)
    ||| c == '_'
}

fn is_word_char(c: char) -> (r: bool)
    ensures
        r == spec_is_word_char(c),
{
    let n = c as u32;
    ||| ('a' as u32) <= n && n <= ('z' as u32)
    ||| ('A' as u32) <= n && n <= ('Z' as u32)
    ||| ('0' as u32) <= n && n <= ('9' as u32)
    ||| c == '_'
}

/// The first position at or after `from` holding the character `c`.
pub open spec fn spec_find_char(s: Seq<char>, from: int, c: char) -> Option<int>
    decreases s.len() - from,
    when 0 <= from <= s.len()
{
    if from >= s.len() {
        None
    } else if s[from] == c {
        Some(from)
    } else {
        spec_find_char(s, from + 1, c)
    }
}

/// The first position at or after `from` holding a word character, or the
/// end of the text.
pub open spec fn spec_find_word(s: Seq<char>, from: int) -> int
    decreases s.len() - from,
    when 0 <= from <= s.len()
{
    if from >= s.len() {
        from
    } else if spec_is_word_char(s[from]) {
        from
    } else {
        spec_find_word(s, from + 1)
    }
}

fn find_char(s: &str, from: usize, c: char) -> (r: Option<usize>)
    requires
        from <= s@.len(),
    ensures
        match r {
            Some(i) => spec_find_char(s@, from as int, c) == Some(i as int) && from <= i < s@.len(),
            None => spec_find_char(s@, from as int, c) is None,
        },
{
    let n = s.unicode_len();
    let mut i: usize = from;
    while i < n
        invariant
            from <= i <= n,
            n == s@.len(),
            spec_find_char(s@, from as int, c) == spec_find_char(s@, i as int, c),
        decreases n - i,
    {
        if s.get_char(i) == c {
            return Some(i);
        }
        proof {
            assert(spec_find_char(s@, i as int, c) == spec_find_char(s@, i + 1, c));
        }
        i += 1;
    }
    None
}

fn find_word(s: &str, from: usize) -> (r: usize)
    requires
        from <= s@.len(),
    ensures
        r == spec_find_word(s@, from as int),
        from <= r <= s@.len(),
{
    let n = s.unicode_len();
    let mut i: usize = from;
    while i < n
        invariant
            from <= i <= n,
            n == s@.len(),
            spec_find_word(s@, from as int) == spec_find_word(s@, i as int),
        decreases n - i,
    {
        if is_word_char(s.get_char(i)) {
            return i;
        }
        proof {
            assert(spec_find_word(s@, i as int) == spec_find_word(s@, i + 1));
        }
        i += 1;
    }
    i
}

/// What one documentation line denotes: the parameter name between the
/// first pair of backticks, then at least one non-word character, then —
/// after the whole run of non-word characters — the description text.
/// A line without a backtick pair, or whose closing backtick is followed
/// by the end of the line or a word character, denotes nothing.
pub open spec fn spec_parse_doc_line(s: Seq<char>) -> Option<(Seq<char>, Seq<char>)> {
    match spec_find_char(s, 0, '`') {
        None => None,
        Some(open_tick) => match spec_find_char(s, open_tick + 1, '`') {
            None => None,
            Some(close_tick) => {
                if close_tick + 1 < s.len() && !spec_is_word_char(s[close_tick + 1]) {
                    let name = s.subrange(open_tick + 1, close_tick);
                    let desc_start = spec_find_word(s, close_tick + 1);
                    Some((name, s.subrange(desc_start, s.len() as int)))
                } else {
                    None
                }
            },
        },
    }
}

/// Splits one documentation line into the parameter name it backticks and
/// the description after the separator. Yields nothing when the line does
/// not follow the convention.
pub fn parse_doc_line(line: &str) -> (r: Option<(String, String)>)
    ensures
        match r {
            Some(pair) => spec_parse_doc_line(line@) == Some((pair.0@, pair.1@)),
            None => spec_parse_doc_line(line@) is None,
        },
{
    let n = line.unicode_len();
    let open_tick = match find_char(line, 0, '`') {
        Some(i) => i,
        None => {
            return None;
        },
    };
    let close_tick = match find_char(line, open_tick + 1, '`') {
        Some(i) => i,
        None => {
            return None;
        },
    };
    if close_tick + 1 >= n {
        return None;
    }
    if is_word_char(line.get_char(close_tick + 1)) {
        return None;
    }
    let name = line.substring_char(open_tick + 1, close_tick);
    let desc_start = find_word(line, close_tick + 1);
    let desc = line.substring_char(desc_start, n);
    Some((String::from_str(name), String::from_str(desc)))
}

/// The views of a list of lines, element by element.
pub open spec fn spec_line_views(lines: Seq<String>) -> Seq<Seq<char>> {
    Seq::new(lines.len(), |i: int| lines[i]@)
}

/// The description map a list of documentation lines denotes: each line
/// parsed in order, a later line overriding an earlier one for the same
/// name. A list with a line that does not follow the convention denotes
/// nothing.
pub open spec fn spec_desc_map_of_lines(lines: Seq<Seq<char>>) -> Option<
    Map<Seq<char>, Seq<char>>,
>
    decreases lines.len(),
{
    if lines.len() == 0 {
        Some(Map::empty())
    } else {
        match spec_desc_map_of_lines(lines.drop_last()) {
            None => None,
            Some(m) => match spec_parse_doc_line(lines.last()) {
                None => None,
                Some(pair) => Some(m.insert(pair.0, pair.1)),
            },
        }
    }
}

/// Once some prefix of the lines fails to parse, the whole list denotes
/// nothing.
proof fn lemma_desc_map_none_extends(lines: Seq<Seq<char>>, j: int)
    requires
        0 <= j <= lines.len(),
        spec_desc_map_of_lines(lines.subrange(0, j)) is None,
    ensures
        spec_desc_map_of_lines(lines) is None,
    decreases lines.len() - j,
{
    if j < lines.len() {
        assert(lines.subrange(0, j + 1).drop_last() =~= lines.subrange(0, j));
        lemma_desc_map_none_extends(lines, j + 1);
    } else {
        assert(lines.subrange(0, lines.len() as int) =~= lines);
    }
}

/// Parses a function's documentation lines into its description map.
/// Yields nothing as soon as one line does not follow the convention: a
/// malformed line is never silently dropped.
pub fn description_map_from_lines(lines: &Vec<String>) -> (r: Option<DescriptionMap>)
    ensures
        match r {
            Some(m) => spec_desc_map_of_lines(spec_line_views(lines@)) == Some(m@),
            None => spec_desc_map_of_lines(spec_line_views(lines@)) is None,
        },
{
    let ghost views = spec_line_views(lines@);
    let mut m = DescriptionMap::new();
    let n = lines.len();
    proof {
        assert(views.subrange(0, 0) =~= Seq::empty());
    }
    let mut i: usize = 0;
    while i < n
        invariant
            0 <= i <= n,
            n == lines.len(),
            views == spec_line_views(lines@),
            spec_desc_map_of_lines(views.subrange(0, i as int)) == Some(m@),
        decreases n - i,
    {
        proof {
            assert(views.subrange(0, i + 1).drop_last() =~= views.subrange(0, i as int));
            assert(views.subrange(0, i + 1).last() == lines@[i as int]@);
        }
        match parse_doc_line(lines[i].as_str()) {
            Some(pair) => {
                m.insert(pair.0, pair.1);
            },
            None => {
                proof {
                    lemma_desc_map_none_extends(views, i + 1);
                }
                return None;
            },
        }
        i += 1;
    }
    proof {
        assert(views.subrange(0, n as int) =~= views);
    }
    Some(m)
}

/// A map from parameter name to description text, collected from one
/// function's documentation lines. A name described twice keeps the later
/// description, as a later line overrides an earlier one.
pub struct DescriptionMap {
    entries: Vec<(String, String)>,
}

/// The map an entry list denotes: entries applied left to right, so a later
/// entry for the same name wins.
pub open spec fn spec_dmap(entries: Seq<(String, String)>) -> Map<Seq<char>, Seq<char>>
    decreases entries.len(),
{
    if entries.len() == 0 {
        Map::empty()
    } else {
        spec_dmap(entries.drop_last()).insert(entries.last().0@, entries.last().1@)
    }
}

impl View for DescriptionMap {
    type V = Map<Seq<char>, Seq<char>>;

    closed spec fn view(&self) -> Map<Seq<char>, Seq<char>> {
        spec_dmap(self.entries@)
    }
}

impl DescriptionMap {
    /// An empty description map.
    pub fn new() -> (r: DescriptionMap)
        ensures
            r@ == Map::<Seq<char>, Seq<char>>::empty(),
    {
        DescriptionMap { entries: Vec::new() }
    }

    /// Records the description for a name, overriding an earlier one.
    pub fn insert(&mut self, name: String, text: String)
        ensures
            final(self)@ == old(self)@.insert(name@, text@),
    {
        let ghost before = self.entries@;
        self.entries.push((name, text));
        proof {
            assert(self.entries@.drop_last() =~= before);
        }
    }

    /// Looks the description for a name up.
    pub fn get(&self, name: &str) -> (r: Option<&String>)
        ensures
            match r {
            Some(text) => self@.contains_key(name@) && self@[name@] == text@,
            None => !self@.contains_key(name@),
        },
    {
        let n = self.entries.len();
        proof {
            assert(self.entries@.subrange(0, n as int) =~= self.entries@);
        }
        let mut i: usize = n;
        while i > 0
            invariant
                0 <= i <= n,
                n == self.entries.len(),
                self@ == spec_dmap(self.entries@),
                spec_dmap(self.entries@.subrange(0, i as int)).contains_key(name@)
                    == self@.contains_key(name@),
                spec_dmap(self.entries@.subrange(0, i as int)).contains_key(name@)
                    ==> spec_dmap(self.entries@.subrange(0, i as int))[name@] == self@[name@],
            decreases i,
        {
            proof {
                assert(self.entries@.subrange(0, i as int).drop_last() =~= self.entries@.subrange(
                    0,
                    i - 1,
                ));
                assert(self.entries@.subrange(0, i as int).last() == self.entries@[i - 1]);
            }
            if str_eq(self.entries[i - 1].0.as_str(), name) {
                return Some(&self.entries[i - 1].1);
            }
            i -= 1;
        }
        proof {
            assert(self.entries@.subrange(0, 0) =~= Seq::<(String, String)>::empty());
        }
        None
    }
}

} // verus!
