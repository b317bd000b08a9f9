//! Colour markup for printed text: `<red>text</red>` prints `text` in red. This module splits
//! a marked-up string into its plain and coloured segments.
use vstd::prelude::*;
use vstd::std_specs::cmp::PartialEqSpecImpl;
use vstd::string::StrSliceExecFns;
use vstd::string::StringExecFns;

use crate::vga_buffer::Colour;

verus! {

/// A segment of marked-up text.
#[derive(Debug)]
pub enum Segment {
    /// Text printed as it is.
    Plain(String),
    /// The colour named by the tag, then the text between the tags.
    Coloured(String, String),
}

/// A segment, by the characters of its strings.
pub ghost enum SegmentView {
    Plain(Seq<char>),
    Coloured(Seq<char>, Seq<char>),
}

impl Segment {
    /// The characters of the segment's strings.
    pub open spec fn view(&self) -> SegmentView {
        match self {
            Segment::Plain(t) => SegmentView::Plain(t@),
            Segment::Coloured(c, t) => SegmentView::Coloured(c@, t@),
        }
    }
}

impl PartialEq for Segment {
    fn eq(&self, other: &Self) -> (r: bool) {
        match (self, other) {
            (Segment::Plain(a), Segment::Plain(b)) => *a == *b,
            (Segment::Coloured(a1, a2), Segment::Coloured(b1, b2)) => *a1 == *b1 && *a2 == *b2,
            _ => false,
        }
    }
}

impl PartialEqSpecImpl for Segment {
    open spec fn obeys_eq_spec() -> bool {
        true
    }

    open spec fn eq_spec(&self, other: &Self) -> bool {
        self.view() == other.view()
    }
}

/// At each position but the last, whether a closing tag `</` starts there.
pub open spec fn close_marks(s: Seq<char>) -> Seq<bool> {
    Seq::new((if s.len() > 0 { s.len() - 1 } else { 0 }) as nat, |i: int| s[i] == '<' && s[i + 1] == '/')
}

/// The segments of `rem`, or none where splitting it fails (a tag that is not closed, or
/// closed by another colour). Text up to the first `<` goes first; `<<` is kept as plain text
/// with what precedes it; a tag that is not at the start goes out as plain text together with
/// the `<` before it, and its colour is then read from the character after that `<` on.
pub open spec fn spec_parse(rem: Seq<char>) -> Option<Seq<SegmentView>>
    decreases rem.len(),
{
    if rem.len() == 0 {
        Some(Seq::empty())
    } else {
        proof {
            rem.index_of_first_ensures('<');
        }
        match rem.index_of_first('<') {
            None => Some(seq![SegmentView::Plain(rem)]),
            Some(t) => {
                if t + 1 < rem.len() && rem[t + 1] == '<' {
                    match spec_parse(rem.subrange(t + 2, rem.len() as int)) {
                        Some(rest) => Some(seq![SegmentView::Plain(rem.subrange(0, t + 2))] + rest),
                        None => None,
                    }
                } else {
                    let pre: Seq<SegmentView> = if t != 0 {
                        seq![SegmentView::Plain(rem.subrange(0, t + 1))]
                    } else {
                        Seq::empty()
                    };
                    let rem1 = if t != 0 {
                        rem.subrange(t + 1, rem.len() as int)
                    } else {
                        rem
                    };
                    proof {
                        rem1.index_of_first_ensures('>');
                    }
                    match rem1.index_of_first('>') {
                        None => None,
                        Some(te) => {
                            if te < 1 {
                                None
                            } else {
                                let colour = rem1.subrange(1, te);
                                let rem2 = rem1.subrange(te + 1, rem1.len() as int);
                                proof {
                                    close_marks(rem2).index_of_first_ensures(true);
                                }
                                match close_marks(rem2).index_of_first(true) {
                                    None => None,
                                    Some(cs) => {
                                        let content = rem2.subrange(0, cs);
                                        let rem3 = rem2.subrange(cs + 1, rem2.len() as int);
                                        proof {
                                            rem3.index_of_first_ensures('>');
                                        }
                                        match rem3.index_of_first('>') {
                                            None => None,
                                            Some(ce) => {
                                                if ce < 1 || colour != rem3.subrange(1, ce) {
                                                    None
                                                } else {
                                                    match spec_parse(rem3.subrange(ce + 1, rem3.len() as int)) {
                                                        Some(rest) => Some(
                                                            pre + seq![SegmentView::Coloured(colour, content)]
                                                                + rest,
                                                        ),
                                                        None => None,
                                                    }
                                                }
                                            },
                                        }
                                    },
                                }
                            }
                        },
                    }
                }
            },
        }
    }
}

fn find_char(s: &str, c: char) -> (r: Option<usize>)
    ensures
        r matches Some(i) ==> s@.index_of_first(c) == Some(i as int) && i < s@.len() && s@[i as int] == c,
        r is None ==> s@.index_of_first(c) is None,
{
    let n = s.unicode_len();
    let mut i: usize = 0;
    while i < n
        invariant
            n == s@.len(),
            i <= n,
            forall|j: int| 0 <= j < i ==> s@[j] != c,
        decreases n - i,
    {
        if s.get_char(i) == c {
            proof {
                s@.index_of_first_ensures(c);
            }
            return Some(i);
        }
        i = i + 1;
    }
    proof {
        s@.index_of_first_ensures(c);
    }
    None
}

fn find_close(s: &str) -> (r: Option<usize>)
    ensures
        r matches Some(i) ==> close_marks(s@).index_of_first(true) == Some(i as int) && i + 1 < s@.len(),
        r is None ==> close_marks(s@).index_of_first(true) is None,
{
    let n = s.unicode_len();
    let ghost marks = close_marks(s@);
    if n < 2 {
        proof {
            marks.index_of_first_ensures(true);
        }
        return None;
    }
    let mut i: usize = 0;
    while i < n - 1
        invariant
            n == s@.len(),
            n >= 2,
            i <= n - 1,
            marks == close_marks(s@),
            forall|j: int| 0 <= j < i && j < marks.len() ==> !marks[j],
        decreases n - i,
    {
        if s.get_char(i) == '<' && s.get_char(i + 1) == '/' {
            proof {
                assert(marks.len() == n - 1);
                assert(marks[i as int]);
                marks.index_of_first_ensures(true);
            }
            return Some(i);
        }
        i = i + 1;
    }
    proof {
        marks.index_of_first_ensures(true);
    }
    None
}

fn str_eq(a: &str, b: &str) -> (r: bool)
    ensures
        r == (a@ == b@),
{
    let n = a.unicode_len();
    if n != b.unicode_len() {
        return false;
    }
    let mut i: usize = 0;
    while i < n
        invariant
            n == a@.len(),
            n == b@.len(),
            i <= n,
            forall|j: int| 0 <= j < i ==> a@[j] == b@[j],
        decreases n - i,
    {
        if a.get_char(i) != b.get_char(i) {
            return false;
        }
        i = i + 1;
    }
    assert(a@ =~= b@);
    true
}

/// The segments of `s` (see `spec_parse`).
pub fn parse_segment(s: &str) -> (r: Vec<Segment>)
    requires
        spec_parse(s@) is Some,
    ensures
        r@.map_values(|seg: Segment| seg.view()) == spec_parse(s@).unwrap(),
{
    let mut out: Vec<Segment> = Vec::new();
    let mut remaining: &str = s;
    while remaining.unicode_len() > 0
        invariant
            spec_parse(remaining@) is Some,
            out@.map_values(|seg: Segment| seg.view()) + spec_parse(remaining@).unwrap() == spec_parse(s@).unwrap(),
        decreases remaining@.len(),
    {
        let ghost rem0 = remaining@;
        let ghost done = out@.map_values(|seg: Segment| seg.view());
        let len = remaining.unicode_len();
        match find_char(remaining, '<') {
            None => {
                out.push(Segment::Plain(String::from_str(remaining)));
                proof {
                    reveal_strlit("");
                }
                remaining = "";
                assert(out@.map_values(|seg: Segment| seg.view()) =~= done + seq![SegmentView::Plain(rem0)]);
            },
            Some(tag_start) => {
                if tag_start + 1 < len && remaining.get_char(tag_start + 1) == '<' {
                    out.push(Segment::Plain(String::from_str(remaining.substring_char(0, tag_start + 2))));
                    remaining = remaining.substring_char(tag_start + 2, len);
                    assert(out@.map_values(|seg: Segment| seg.view()) =~= done + seq![
                        SegmentView::Plain(rem0.subrange(0, tag_start + 2)),
                    ]);
                } else {
                    if tag_start != 0 {
                        out.push(Segment::Plain(String::from_str(remaining.substring_char(0, tag_start + 1))));
                        remaining = remaining.substring_char(tag_start + 1, len);
                    }
                    let ghost done1 = out@.map_values(|seg: Segment| seg.view());
                    let ghost rem1 = remaining@;
                    let len1 = remaining.unicode_len();
                    let tag_end = match find_char(remaining, '>') {
                        Some(e) => e,
                        None => {
                            return out;
                        },
                    };
                    proof {
                        rem1.index_of_first_ensures('>');
                    }
                    let colour = remaining.substring_char(1, tag_end);
                    remaining = remaining.substring_char(tag_end + 1, len1);
                    let ghost rem2 = remaining@;
                    let len2 = remaining.unicode_len();
                    let close_start = match find_close(remaining) {
                        Some(c) => c,
                        None => {
                            return out;
                        },
                    };
                    proof {
                        close_marks(rem2).index_of_first_ensures(true);
                    }
                    let content = remaining.substring_char(0, close_start);
                    remaining = remaining.substring_char(close_start + 1, len2);
                    let ghost rem3 = remaining@;
                    let len3 = remaining.unicode_len();
                    let close_end = match find_char(remaining, '>') {
                        Some(e) => e,
                        None => {
                            return out;
                        },
                    };
                    proof {
                        rem3.index_of_first_ensures('>');
                    }
                    let close_colour = remaining.substring_char(1, close_end);
                    if !str_eq(colour, close_colour) {
                        return out;
                    }
                    out.push(Segment::Coloured(String::from_str(colour), String::from_str(content)));
                    remaining = remaining.substring_char(close_end + 1, len3);
                    assert(out@.map_values(|seg: Segment| seg.view()) =~= done1 + seq![
                        SegmentView::Coloured(colour@, content@),
                    ]);
                }
            },
        }
    }
    assert(spec_parse(remaining@).unwrap() =~= Seq::<SegmentView>::empty());
    assert(out@.map_values(|seg: Segment| seg.view()) =~= spec_parse(s@).unwrap());
    out
}

/// The colour that a tag names: one of `black`, `white`, `red` and `blue`.
pub fn colour_ident(name: &str) -> (r: Colour)
    requires
        name@ == "black"@ || name@ == "white"@ || name@ == "red"@ || name@ == "blue"@,
    ensures
        name@ == "black"@ ==> r == Colour::Black,
        name@ == "white"@ ==> r == Colour::White,
        name@ == "red"@ ==> r == Colour::Red,
        name@ == "blue"@ ==> r == Colour::Blue,
{
    proof {
        reveal_strlit("black");
        reveal_strlit("white");
        reveal_strlit("red");
        reveal_strlit("blue");
        assert("black"@.len() == 5 && "white"@.len() == 5 && "red"@.len() == 3 && "blue"@.len() == 4);
        assert("black"@[0] == 'b' && "white"@[0] == 'w');
    }
    if str_eq(name, "black") {
        Colour::Black
    } else if str_eq(name, "white") {
        Colour::White
    } else if str_eq(name, "red") {
        Colour::Red
    } else {
        Colour::Blue
    }
}

} // verus!
