use vstd::prelude::*;
use vstd::string::StrSliceExecFns;

verus! {

/// A 1-based (row, col) coordinate identifying one square of the board.
/// Both components are meant to lie in 1..=3; `valid` says so, and the
/// parser only ever produces valid positions.
#[derive(PartialEq, Eq, Structural, Debug, Clone, Copy)]
pub struct Position {
    pub row: i8,
    pub col: i8,
}

/// Whitespace that is ignored around a coordinate: the characters with the
/// Unicode White_Space property, exactly what `str::trim` removes.
pub open spec fn is_space_char(c: char) -> bool {
    let u = c as u32;
    ||| u == 0x20
    ||| 0x09 <= u && u <= 0x0D
    ||| u == 0x85
    ||| u == 0xA0
    ||| u == 0x1680
    ||| 0x2000 <= u && u <= 0x200A
    ||| u == 0x2028
    ||| u == 0x2029
    ||| u == 0x202F
    ||| u == 0x205F
    ||| u == 0x3000
}

/// A decimal digit.
pub open spec fn is_digit_char(c: char) -> bool {
    '0' as u32 <= c as u32 && c as u32 <= '9' as u32
}

/// The numeric value of a decimal digit.
pub open spec fn digit_val(c: char) -> int {
    c as int - '0' as int
}

/// The text with leading and trailing whitespace removed.
pub open spec fn trimmed(s: Seq<char>) -> Seq<char>
    decreases s.len(),
{
    if s.len() > 0 && is_space_char(s[0]) {
        trimmed(s.drop_first())
    } else if s.len() > 0 && is_space_char(s[s.len() - 1]) {
        trimmed(s.drop_last())
    } else {
        s
    }
}

/// Every character is a decimal digit.
pub open spec fn all_digits(s: Seq<char>) -> bool {
    forall|i: int| 0 <= i < s.len() ==> is_digit_char(#[trigger] s[i])
}

/// The number a string of decimal digits denotes, most significant first.
pub open spec fn digits_value(s: Seq<char>) -> int
    decreases s.len(),
{
    if s.len() == 0 {
        0
    } else {
        digits_value(s.drop_last()) * 10 + digit_val(s.last())
    }
}

/// How often a character occurs in the text.
pub open spec fn count_char(s: Seq<char>, c: char) -> int
    decreases s.len(),
{
    if s.len() == 0 {
        0
    } else {
        count_char(s.drop_last(), c) + if s.last() == c {
            1int
        } else {
            0int
        }
    }
}

/// The first index at which a character occurs (the length if it does not).
pub open spec fn first_index_of(s: Seq<char>, c: char) -> int
    decreases s.len(),
{
    if s.len() == 0 {
        0
    } else if s[0] == c {
        0
    } else {
        1 + first_index_of(s.drop_first(), c)
    }
}

/// The digits of a coordinate field: the field with surrounding
/// whitespace and an optional leading '+' sign removed.
pub open spec fn coord_body(s: Seq<char>) -> Seq<char> {
    let t = trimmed(s);
    if t.len() > 0 && t[0] == '+' {
        t.drop_first()
    } else {
        t
    }
}

/// The numeric reading of one coordinate field: optional whitespace around
/// an optional '+' sign followed by at least one decimal digit. Anything
/// else, a '-' sign included, reads as nothing.
pub open spec fn coord_value(s: Seq<char>) -> Option<int> {
    if coord_body(s).len() > 0 && all_digits(coord_body(s)) {
        Some(digits_value(coord_body(s)))
    } else {
        None
    }
}

/// A coordinate field that reads as a number on the board: its value must
/// lie in 1..=3.
pub open spec fn coord_in_range(s: Seq<char>) -> Option<int> {
    match coord_value(s) {
        Some(n) => if 1 <= n <= 3 {
            Some(n)
        } else {
            None
        },
        None => None,
    }
}

/// The message rejecting input that is not two fields around one comma.
pub open spec fn format_msg() -> Seq<char> {
    "Select square in format \"ROW,COL\""@
}

/// The message rejecting fields that are not numbers between 1 and 3.
pub open spec fn range_msg() -> Seq<char> {
    "ROW and COL values should be numbers between 1 and 3"@
}

/// What parsing "ROW,COL" text yields: the input must hold exactly one
/// comma, and each side of it must read as a number in 1..=3; otherwise
/// the fitting message.
pub open spec fn parsed_position(s: Seq<char>) -> Result<Position, Seq<char>> {
    if count_char(s, ',') != 1 {
        Err(format_msg())
    } else {
        let i = first_index_of(s, ',');
        match (coord_in_range(s.subrange(0, i)), coord_in_range(s.subrange(i + 1, s.len() as int))) {
            (Some(r), Some(c)) => Ok(Position { row: r as i8, col: c as i8 }),
            _ => Err(range_msg()),
        }
    }
}

impl Position {
    /// Both coordinates lie in the 1..=3 range the board understands.
    pub open spec fn valid(self) -> bool {
        1 <= self.row <= 3 && 1 <= self.col <= 3
    }

    /// Parses "ROW,COL" input, whitespace-trimmed around the comma, into a
    /// valid position, or reports why the input is rejected: a shape that
    /// is not two fields around one comma, or fields that are not numbers
    /// between 1 and 3.
    pub fn from_str(s: &str) -> (r: Result<Position, String>)
        ensures
            match parsed_position(s@) {
                Ok(p) => r matches Ok(q) && q == p,
                Err(m) => r matches Err(e) && e@ == m,
            },
            r matches Ok(p) ==> p.valid(),
    {
        let n = s.unicode_len();
        let mut i: usize = 0;
        let mut commas: usize = 0;
        let mut comma_at: usize = 0;
        while i < n
            invariant
                i <= n,
                n == s@.len(),
                commas <= i,
                commas == count_char(s@.subrange(0, i as int), ','),
                commas > 0 ==> comma_at < i && s@[comma_at as int] == ',' && (forall|j: int|
                    0 <= j < comma_at ==> s@[j] != ','),
                commas == 0 ==> forall|j: int| 0 <= j < i ==> s@[j] != ',',
            decreases n - i,
        {
            let ch = s.get_char(i);
            proof {
                lemma_count_extend(s@, ',', i as int);
            }
            if ch == ',' {
                if commas == 0 {
                    comma_at = i;
                }
                commas = commas + 1;
            }
            i = i + 1;
        }
        proof {
            assert(s@.subrange(0, n as int) =~= s@);
        }
        if commas != 1 {
            return Err("Select square in format \"ROW,COL\"".to_owned());
        }
        proof {
            lemma_first_index(s@, ',', comma_at as int);
        }
        let row = parse_coord(s, 0, comma_at);
        let col = parse_coord(s, comma_at + 1, n);
        match (row, col) {
            (Some(r), Some(c)) => Ok(Position { row: r, col: c }),
            _ => Err("ROW and COL values should be numbers between 1 and 3".to_owned()),
        }
    }
}

/// Reads the field s[start..end] as a coordinate: `Some` exactly when the
/// field is an optionally signed, whitespace-trimmed number in 1..=3.
fn parse_coord(s: &str, start: usize, end: usize) -> (r: Option<i8>)
    requires
        start <= end <= s@.len(),
    ensures
        match coord_in_range(s@.subrange(start as int, end as int)) {
            Some(v) => r matches Some(b) && b as int == v,
            None => r is None,
        },
{
    let ghost orig: Seq<char> = s@.subrange(start as int, end as int);
    let mut lo = start;
    let mut hi = end;
    while lo < hi && is_space(s.get_char(lo))
        invariant
            start <= lo <= hi <= end <= s@.len(),
            trimmed(s@.subrange(lo as int, hi as int)) == trimmed(orig),
        decreases hi - lo,
    {
        proof {
            let cur = s@.subrange(lo as int, hi as int);
            assert(cur[0] == s@[lo as int]);
            assert(cur.drop_first() =~= s@.subrange(lo as int + 1, hi as int));
        }
        lo = lo + 1;
    }
    while lo < hi && is_space(s.get_char(hi - 1))
        invariant
            start <= lo <= hi <= end <= s@.len(),
            trimmed(s@.subrange(lo as int, hi as int)) == trimmed(orig),
            lo < hi ==> !is_space_char(s@[lo as int]),
        decreases hi - lo,
    {
        proof {
            let cur = s@.subrange(lo as int, hi as int);
            assert(cur[0] == s@[lo as int]);
            assert(cur.last() == s@[hi - 1]);
            assert(cur.drop_last() =~= s@.subrange(lo as int, hi as int - 1));
        }
        hi = hi - 1;
    }
    proof {
        let cur = s@.subrange(lo as int, hi as int);
        if cur.len() > 0 {
            assert(cur[0] == s@[lo as int]);
            assert(cur.last() == s@[hi - 1]);
        }
        assert(trimmed(cur) == cur);
        assert(cur == trimmed(orig));
    }
    let mut p = lo;
    if p < hi && s.get_char(p) == '+' {
        p = p + 1;
    }
    proof {
        assert(coord_body(orig) =~= s@.subrange(p as int, hi as int));
    }
    if p == hi {
        return None;
    }
    let mut value: u32 = 0;
    let mut too_big = false;
    let mut k = p;
    while k < hi
        invariant
            p <= k <= hi <= s@.len(),
            p < hi,
            all_digits(s@.subrange(p as int, k as int)),
            !too_big ==> value as int == digits_value(s@.subrange(p as int, k as int)) && value
                <= 3,
            too_big ==> digits_value(s@.subrange(p as int, k as int)) > 3,
            orig == s@.subrange(start as int, end as int),
            coord_body(orig) == s@.subrange(p as int, hi as int),
        decreases hi - k,
    {
        let ch = s.get_char(k);
        let code = ch as u32;
        proof {
            let prefix = s@.subrange(p as int, k as int);
            let extended = s@.subrange(p as int, k as int + 1);
            assert(extended.drop_last() =~= prefix);
            assert(extended.last() == s@[k as int]);
        }
        if code < 48 || code > 57 {
            proof {
                let body = s@.subrange(p as int, hi as int);
                assert(body[k - p] == s@[k as int]);
                assert(!is_digit_char(s@[k as int]));
                assert(!all_digits(body));
            }
            return None;
        }
        let d = code - 48;
        if too_big {
        } else {
            let next = value * 10 + d;
            if next > 3 {
                too_big = true;
            } else {
                value = next;
            }
        }
        k = k + 1;
    }
    if too_big || value == 0 {
        return None;
    }
    Some(value as i8)
}

/// Whitespace that the parser ignores around a coordinate.
fn is_space(c: char) -> (r: bool)
    ensures
        r == is_space_char(c),
{
    let u: u32 = c as u32;
    u == 0x20 || (0x09 <= u && u <= 0x0D) || u == 0x85 || u == 0xA0 || u == 0x1680 || (0x2000 <= u
        && u <= 0x200A) || u == 0x2028 || u == 0x2029 || u == 0x202F || u == 0x205F || u == 0x3000
}

/// Appending one character to a prefix adds one occurrence when that
/// character is the one counted and none otherwise.
proof fn lemma_count_extend(s: Seq<char>, c: char, i: int)
    requires
        0 <= i < s.len(),
    ensures
        count_char(s.subrange(0, i + 1), c) == count_char(s.subrange(0, i), c) + if s[i] == c {
            1int
        } else {
            0int
        },
{
    assert(s.subrange(0, i + 1).drop_last() =~= s.subrange(0, i));
    assert(s.subrange(0, i + 1).last() == s[i]);
}

/// A character's first occurrence is the index before which it is absent.
proof fn lemma_first_index(s: Seq<char>, c: char, i: int)
    requires
        0 <= i < s.len(),
        s[i] == c,
        forall|j: int| 0 <= j < i ==> s[j] != c,
    ensures
        first_index_of(s, c) == i,
    decreases i,
{
    if i > 0 {
        assert(s.drop_first()[i - 1] == s[i]);
        assert forall|j: int| 0 <= j < i - 1 implies s.drop_first()[j] != c by {
            assert(s.drop_first()[j] == s[j + 1]);
        }
        lemma_first_index(s.drop_first(), c, i - 1);
    }
}

} // verus!
