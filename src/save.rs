use vstd::prelude::*;
use crate::player::Player;

verus! {

/// Length of the first line of `s`: the characters before the first `'\n'`,
/// or all of `s` when it holds none.
pub open spec fn line_len(s: Seq<char>) -> nat
    decreases s.len(),
{
    if s.len() == 0 {
        0
    } else if s[0] == '\n' {
        0
    } else {
        1 + line_len(s.drop_first())
    }
}

/// A line that ended in `'\n'`, without a `'\r'` just before that newline.
pub open spec fn without_cr(line: Seq<char>) -> Seq<char> {
    if line.len() > 0 && line.last() == '\r' {
        line.drop_last()
    } else {
        line
    }
}

/// The lines of a save file: split at each `'\n'` (and `"\r\n"`); the last
/// line needs no newline, and an empty text has no lines.
pub open spec fn save_lines(s: Seq<char>) -> Seq<Seq<char>>
    decreases s.len(),
{
    if s.len() == 0 {
        seq![]
    } else {
        let j = line_len(s);
        if j < s.len() {
            seq![without_cr(s.take(j as int))] + save_lines(s.skip(j as int + 1))
        } else {
            seq![s]
        }
    }
}

proof fn lemma_line_len(s: Seq<char>, j: int)
    requires
        0 <= j <= s.len(),
        forall|k: int| 0 <= k < j ==> s[k] != '\n',
        j == s.len() || s[j] == '\n',
    ensures
        line_len(s) == j,
    decreases j,
{
    if j > 0 {
        lemma_line_len(s.drop_first(), j - 1);
    }
}

/// Splits a save file into its lines.
pub fn decode_save(save_info: &str) -> (r: Vec<String>)
    ensures
        r@.len() == save_lines(save_info@).len(),
        forall|i: int| 0 <= i < r@.len() ==> #[trigger] r@[i]@ == save_lines(save_info@)[i],
{
    let s = save_info;
    let n = s.unicode_len();
    let mut lines: Vec<String> = Vec::new();
    let ghost mut done: Seq<Seq<char>> = seq![];
    let mut start: usize = 0;
    proof {
        assert(s@.skip(0) =~= s@);
        assert(done + save_lines(s@) =~= save_lines(s@));
    }
    while start < n
        invariant
            n == s@.len(),
            start <= n,
            lines@.len() == done.len(),
            forall|i: int| 0 <= i < done.len() ==> #[trigger] lines@[i]@ == done[i],
            done + save_lines(s@.skip(start as int)) == save_lines(s@),
        decreases n - start,
    {
        let mut j: usize = start;
        while j < n && s.get_char(j) != '\n'
            invariant
                n == s@.len(),
                start <= j <= n,
                forall|k: int| start <= k < j ==> s@[k] != '\n',
            decreases n - j,
        {
            j = j + 1;
        }
        let ghost t = s@.skip(start as int);
        proof {
            lemma_line_len(t, j - start);
            assert(t.take(j - start) =~= s@.subrange(start as int, j as int));
        }
        let end = if j < n && j > start && s.get_char(j - 1) == '\r' {
            j - 1
        } else {
            j
        };
        let line = String::from_str(s.substring_char(start, end));
        proof {
            if j < n {
                assert(t.skip(j - start + 1) =~= s@.skip(j + 1));
                assert(line@ =~= without_cr(t.take(j - start)));
            } else {
                assert(line@ =~= t);
                assert(s@.skip(n as int) =~= seq![]);
            }
            assert(save_lines(seq![]) == Seq::<Seq<char>>::empty());
            done = done.push(line@);
        }
        lines.push(line);
        start = if j < n {
            j + 1
        } else {
            n
        };
        proof {
            assert(done + save_lines(s@.skip(start as int)) =~= save_lines(s@));
        }
    }
    proof {
        assert(s@.skip(n as int) =~= seq![]);
        assert(done =~= save_lines(s@));
    }
    lines
}

pub open spec fn is_digit(c: char) -> bool {
    '0' <= c <= '9'
}

pub open spec fn all_digits(s: Seq<char>) -> bool {
    forall|i: int| 0 <= i < s.len() ==> is_digit(#[trigger] s[i])
}

/// The number that a string of decimal digits spells.
pub open spec fn digits_value(s: Seq<char>) -> int
    decreases s.len(),
{
    if s.len() == 0 {
        0
    } else {
        10 * digits_value(s.drop_last()) + (s.last() as int - '0' as int)
    }
}

/// The integer that `s` spells: an optional `'+'` or `'-'` followed by one
/// or more decimal digits, and nothing else.
pub open spec fn decimal_value(s: Seq<char>) -> Option<int> {
    if s.len() > 0 && (s[0] == '-' || s[0] == '+') {
        let d = s.drop_first();
        if d.len() > 0 && all_digits(d) {
            Some(
                if s[0] == '-' {
                    -digits_value(d)
                } else {
                    digits_value(d)
                },
            )
        } else {
            None
        }
    } else if s.len() > 0 && all_digits(s) {
        Some(digits_value(s))
    } else {
        None
    }
}

/// Whether `s` spells an integer that fits in `i32`.
pub open spec fn is_stat(s: Seq<char>) -> bool {
    &&& decimal_value(s) is Some
    &&& i32::MIN <= decimal_value(s)->0 <= i32::MAX
}

proof fn lemma_digits_grow(s: Seq<char>, i: int, j: int)
    requires
        all_digits(s),
        0 <= i <= j <= s.len(),
    ensures
        0 <= digits_value(s.take(i)) <= digits_value(s.take(j)),
    decreases j,
{
    if j > 0 {
        assert(s.take(j).drop_last() =~= s.take(j - 1));
        assert(is_digit(s[j - 1]));
        if i < j {
            lemma_digits_grow(s, i, j - 1);
        } else {
            lemma_digits_grow(s, j - 1, j - 1);
        }
    } else {
        assert(s.take(0).len() == 0);
    }
}

/// Reads a level or health field: an `i32` in decimal, with an optional
/// sign.
pub fn parse_stat(field: &str) -> (r: Option<i32>)
    ensures
        r is Some <==> is_stat(field@),
        r is Some ==> r->0 == decimal_value(field@)->0,
{
    let n = field.unicode_len();
    if n == 0 {
        return None;
    }
    let first = field.get_char(0);
    let negative = first == '-';
    let start: usize = if first == '-' || first == '+' {
        1
    } else {
        0
    };
    if start == n {
        return None;
    }
    let ghost d = field@.skip(start as int);
    proof {
        if start == 0 {
            assert(d =~= field@);
        } else {
            assert(d =~= field@.drop_first());
        }
    }
    let mut acc: i64 = 0;
    let mut i: usize = start;
    while i < n
        invariant
            n == field@.len(),
            d == field@.skip(start as int),
            start <= i <= n,
            start < n,
            first == field@[0],
            negative == (first == '-'),
            start == 0 ==> d == field@ && first != '-' && first != '+',
            start == 1 ==> d == field@.drop_first() && (first == '-' || first == '+'),
            start <= 1,
            all_digits(field@.subrange(start as int, i as int)),
            acc == digits_value(field@.subrange(start as int, i as int)),
            0 <= acc <= 2147483648,
        decreases n - i,
    {
        let c = field.get_char(i);
        if c < '0' || c > '9' {
            assert(!all_digits(d)) by {
                assert(d[i - start] == c);
            }
            return None;
        }
        let ghost before = field@.subrange(start as int, i as int);
        let ghost after = field@.subrange(start as int, i + 1);
        proof {
            assert(after.drop_last() =~= before);
            assert(after.last() == c);
            assert(all_digits(after));
        }
        let next: i64 = acc * 10 + (c as u32 - '0' as u32) as i64;
        if next > 2147483648 {
            proof {
                if all_digits(d) {
                    assert(d.take(i + 1 - start) =~= after);
                    lemma_digits_grow(d, i + 1 - start, d.len() as int);
                    assert(d.take(d.len() as int) =~= d);
                }
            }
            return None;
        }
        acc = next;
        i = i + 1;
    }
    proof {
        assert(field@.subrange(start as int, n as int) =~= d);
    }
    if negative {
        Some((-acc) as i32)
    } else if acc > 2147483647 {
        None
    } else {
        Some(acc as i32)
    }
}

/// Why a save file could not be read.
#[derive(Clone, Copy, Debug, PartialEq, Eq, Structural)]
pub enum SaveError {
    /// The file has fewer than three lines.
    MissingLine,
    /// The second line is not an `i32`.
    BadLevel,
    /// The third line is not an `i32`.
    BadHealth,
}

impl Player {
    /// A fresh player whose name, level and health are the first three
    /// lines of a save file; later lines are ignored.
    pub fn from_save(save_info: &str) -> (r: Result<Player, SaveError>)
        ensures
            ({
                let lines = save_lines(save_info@);
                match r {
                    Ok(p) => {
                        &&& lines.len() >= 3
                        &&& is_stat(lines[1])
                        &&& is_stat(lines[2])
                        &&& p.wf()
                        &&& p.name@ == lines[0]
                        &&& p.level == decimal_value(lines[1])->0
                        &&& p.health == decimal_value(lines[2])->0
                        &&& p.speed == crate::player::PLAYER_SPEED
                        &&& p.tear_cooldown == 0
                        &&& p.direction == (crate::units::Vec2 { x: 0, y: 0 })
                        &&& p.position == (crate::units::Vec2 { x: 0, y: 0 })
                    },
                    Err(e) => {
                        &&& e == SaveError::MissingLine <==> lines.len() < 3
                        &&& e == SaveError::BadLevel <==> lines.len() >= 3 && !is_stat(lines[1])
                        &&& e == SaveError::BadHealth <==> lines.len() >= 3 && is_stat(lines[1])
                            && !is_stat(lines[2])
                    },
                }
            }),
    {
        let stats = decode_save(save_info);
        if stats.len() < 3 {
            return Err(SaveError::MissingLine);
        }
        let level = match parse_stat(stats[1].as_str()) {
            Some(v) => v,
            None => return Err(SaveError::BadLevel),
        };
        let health = match parse_stat(stats[2].as_str()) {
            Some(v) => v,
            None => return Err(SaveError::BadHealth),
        };
        let name = stats[0].clone();
        Ok(Player::new(name, level, health))
    }
}

} // verus!
