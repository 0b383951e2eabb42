//! Version numbers as text: components between dots, each a decimal numeral
//! of thirty-two bits, ranked component by component.

use vstd::prelude::*;
use crate::text::chars_of;

verus! {

/// Why a piece of text is no numeral of thirty-two bits.
#[derive(Debug, Clone, Copy, PartialEq, Eq, Structural)]
pub enum ParseFault {
    /// The text is empty.
    Empty,
    /// The text holds a character that is no digit, or a sign alone.
    InvalidDigit,
    /// The numeral is too large.
    PosOverflow,
}

impl ParseFault {
    /// What is said of a text with this fault.
    pub open spec fn text(self) -> Seq<char> {
        match self {
            ParseFault::Empty => "cannot parse integer from empty string"@,
            ParseFault::InvalidDigit => "invalid digit found in string"@,
            ParseFault::PosOverflow => "number too large to fit in target type"@,
        }
    }

    /// What is said of a text with this fault.
    pub fn as_str(&self) -> (r: &'static str)
        ensures
            r@ == self.text(),
    {
        match self {
            ParseFault::Empty => "cannot parse integer from empty string",
            ParseFault::InvalidDigit => "invalid digit found in string",
            ParseFault::PosOverflow => "number too large to fit in target type",
        }
    }
}

/// How one version stands to another.
#[derive(Debug, Clone, Copy, PartialEq, Eq, Structural)]
pub enum Rank {
    Less,
    Equal,
    Greater,
}

/// Why two versions cannot be ranked.
#[derive(Debug, Clone, Copy, PartialEq, Eq, Structural)]
pub enum VersionFault {
    /// A component of the first version is no numeral.
    First(ParseFault),
    /// A component of the second version is no numeral.
    Second(ParseFault),
    /// The versions have different numbers of components.
    Components,
}

/// The value of a decimal digit.
pub open spec fn digit_value(c: char) -> Option<nat> {
    if '0' <= c && c <= '9' {
        Some((c as nat - '0' as nat) as nat)
    } else {
        None
    }
}

/// The value of a run of digits, read from the left; the fault at the first
/// character that is no digit or takes the value beyond `max`.
pub open spec fn digits_value(s: Seq<char>, max: nat) -> Result<nat, ParseFault>
    decreases s.len(),
{
    if s.len() == 0 {
        Ok(0)
    } else {
        match digits_value(s.drop_last(), max) {
            Err(e) => Err(e),
            Ok(v) => match digit_value(s.last()) {
                None => Err(ParseFault::InvalidDigit),
                Some(d) => if v * 10 + d > max {
                    Err(ParseFault::PosOverflow)
                } else {
                    Ok(v * 10 + d)
                },
            },
        }
    }
}

/// The number up to `max` that a text stands for: a run of digits, after a
/// plus sign or none. Leading zeros count for nothing.
pub open spec fn bounded_value(s: Seq<char>, max: nat) -> Result<nat, ParseFault> {
    if s.len() == 0 {
        Err(ParseFault::Empty)
    } else if s.len() == 1 && (s[0] == '+' || s[0] == '-') {
        Err(ParseFault::InvalidDigit)
    } else if s[0] == '+' {
        digits_value(s.skip(1), max)
    } else {
        digits_value(s, max)
    }
}

/// The number of thirty-two bits that a text stands for.
pub open spec fn numeral_value(s: Seq<char>) -> Result<nat, ParseFault> {
    bounded_value(s, 0xffff_ffff)
}

/// The components of a text read so far: those that a dot has closed, and
/// the one that is still open.
pub open spec fn split_state(s: Seq<char>) -> (Seq<Seq<char>>, Seq<char>)
    decreases s.len(),
{
    if s.len() == 0 {
        (Seq::<Seq<char>>::empty(), Seq::<char>::empty())
    } else {
        let (done, open) = split_state(s.drop_last());
        if s.last() == '.' {
            (done.push(open), Seq::<char>::empty())
        } else {
            (done, open.push(s.last()))
        }
    }
}

/// The pieces of a text between its dots; a text without a dot is one piece.
pub open spec fn components(s: Seq<char>) -> Seq<Seq<char>> {
    split_state(s).0.push(split_state(s).1)
}

/// The numbers of a list of components, or the fault of the first component
/// that is no numeral.
pub open spec fn numbers(cs: Seq<Seq<char>>) -> Result<Seq<nat>, ParseFault>
    decreases cs.len(),
{
    if cs.len() == 0 {
        Ok(Seq::<nat>::empty())
    } else {
        match numbers(cs.drop_last()) {
            Err(e) => Err(e),
            Ok(vs) => match numeral_value(cs.last()) {
                Err(e) => Err(e),
                Ok(v) => Ok(vs.push(v)),
            },
        }
    }
}

/// The rank of `a` against `b` from the component at place `k` on: that of
/// the first pair of components that differ.
pub open spec fn rank_from(a: Seq<nat>, b: Seq<nat>, k: int) -> Rank
    decreases a.len() - k,
{
    if k < 0 || k >= a.len() || k >= b.len() {
        Rank::Equal
    } else if a[k] < b[k] {
        Rank::Less
    } else if a[k] > b[k] {
        Rank::Greater
    } else {
        rank_from(a, b, k + 1)
    }
}

/// The rank of the version `first` against the version `second`, or why
/// there is none. The first version is read first.
pub open spec fn version_rank(first: Seq<char>, second: Seq<char>) -> Result<Rank, VersionFault> {
    match numbers(components(first)) {
        Err(e) => Err(VersionFault::First(e)),
        Ok(a) => match numbers(components(second)) {
            Err(e) => Err(VersionFault::Second(e)),
            Ok(b) => if a.len() != b.len() {
                Err(VersionFault::Components)
            } else {
                Ok(rank_from(a, b, 0))
            },
        },
    }
}

fn parse_digits(s: &Vec<char>, from: usize, max: u64) -> (r: Result<u64, ParseFault>)
    requires
        from <= s@.len(),
    ensures
        match digits_value(s@.skip(from as int), max as nat) {
            Ok(v) => r == Ok::<u64, ParseFault>(v as u64) && v <= max,
            Err(e) => r == Err::<u64, ParseFault>(e),
        },
{
    let ghost t = s@.skip(from as int);
    let mut value: u64 = 0;
    let mut i: usize = from;
    proof {
        assert(t.take(0) =~= Seq::<char>::empty());
    }
    while i < s.len()
        invariant
            from <= i <= s@.len(),
            t == s@.skip(from as int),
            value <= max,
            digits_value(t.take(i - from), max as nat) == Ok::<nat, ParseFault>(value as nat),
        decreases s@.len() - i,
    {
        let c = s[i];
        proof {
            assert(t.take(i - from + 1).drop_last() =~= t.take(i - from));
            assert(t.take(i - from + 1).last() == c);
            lemma_digits_fault(t, i - from + 1, max as nat);
        }
        if c < '0' || c > '9' {
            return Err(ParseFault::InvalidDigit);
        }
        let d: u64 = (c as u32 - '0' as u32) as u64;
        if value > max / 10 || (value == max / 10 && d > max % 10) {
            assert(value * 10 + d > max) by (nonlinear_arith)
                requires
                    value > max / 10 || (value == max / 10 && d > max % 10),
                    d <= 9,
            ;
            return Err(ParseFault::PosOverflow);
        }
        assert(value * 10 + d <= max) by (nonlinear_arith)
            requires
                !(value > max / 10 || (value == max / 10 && d > max % 10)),
                d <= 9,
        ;
        value = value * 10 + d;
        i = i + 1;
    }
    proof {
        assert(t.take(t.len() as int) =~= t);
    }
    Ok(value)
}

/// A fault in a prefix of a run of digits is the fault of the whole run.
proof fn lemma_digits_fault(s: Seq<char>, k: int, max: nat)
    requires
        0 <= k <= s.len(),
    ensures
        digits_value(s.take(k), max) matches Err(e) ==> digits_value(s, max) == Err::<
            nat,
            ParseFault,
        >(e),
    decreases s.len() - k,
{
    if k < s.len() {
        lemma_digits_fault(s, k + 1, max);
        assert(s.take(k + 1).drop_last() =~= s.take(k));
    } else {
        assert(s.take(k) =~= s);
    }
}

/// Reads a numeral up to `max`: digits, after a plus sign or none.
pub fn parse_bounded(s: &Vec<char>, max: u64) -> (r: Result<u64, ParseFault>)
    ensures
        match bounded_value(s@, max as nat) {
            Ok(v) => r == Ok::<u64, ParseFault>(v as u64) && v <= max,
            Err(e) => r == Err::<u64, ParseFault>(e),
        },
{
    if s.len() == 0 {
        return Err(ParseFault::Empty);
    }
    let c = s[0];
    if s.len() == 1 && (c == '+' || c == '-') {
        return Err(ParseFault::InvalidDigit);
    }
    if c == '+' {
        parse_digits(s, 1, max)
    } else {
        proof {
            assert(s@.skip(0) =~= s@);
        }
        parse_digits(s, 0, max)
    }
}

/// Reads a numeral of thirty-two bits: digits, after a plus sign or none.
pub fn parse_numeral(s: &Vec<char>) -> (r: Result<u32, ParseFault>)
    ensures
        match numeral_value(s@) {
            Ok(v) => r == Ok::<u32, ParseFault>(v as u32) && v <= 0xffff_ffff,
            Err(e) => r == Err::<u32, ParseFault>(e),
        },
{
    match parse_bounded(s, 0xffff_ffff) {
        Ok(v) => Ok(v as u32),
        Err(e) => Err(e),
    }
}

/// Cuts a text at its dots.
pub fn split_dots(s: &str) -> (r: Vec<Vec<char>>)
    ensures
        r@.map_values(|c: Vec<char>| c@) == components(s@),
{
    let chars = chars_of(s);
    let mut done: Vec<Vec<char>> = Vec::new();
    let mut open: Vec<char> = Vec::new();
    let mut i: usize = 0;
    proof {
        assert(s@.take(0) =~= Seq::<char>::empty());
        assert(done@.map_values(|c: Vec<char>| c@) =~= Seq::<Seq<char>>::empty());
    }
    while i < chars.len()
        invariant
            i <= chars@.len(),
            chars@ == s@,
            done@.map_values(|c: Vec<char>| c@) == split_state(s@.take(i as int)).0,
            open@ == split_state(s@.take(i as int)).1,
        decreases chars@.len() - i,
    {
        let c = chars[i];
        proof {
            assert(s@.take(i + 1).drop_last() =~= s@.take(i as int));
            assert(s@.take(i + 1).last() == c);
        }
        if c == '.' {
            let ghost before = done@.map_values(|c: Vec<char>| c@);
            let mut closed: Vec<char> = Vec::new();
            std::mem::swap(&mut closed, &mut open);
            done.push(closed);
            proof {
                assert(done@.map_values(|c: Vec<char>| c@) =~= before.push(closed@));
            }
        } else {
            open.push(c);
        }
        i = i + 1;
    }
    proof {
        assert(s@.take(s@.len() as int) =~= s@);
    }
    let ghost before = done@.map_values(|c: Vec<char>| c@);
    done.push(open);
    proof {
        assert(done@.map_values(|c: Vec<char>| c@) =~= before.push(open@));
    }
    done
}

/// The numbers of a list of components, as a specification speaks of them.
pub open spec fn values_of(v: Seq<u32>) -> Seq<nat> {
    v.map_values(|x: u32| x as nat)
}

/// Reads the components of a version.
pub fn parse_components(cs: &Vec<Vec<char>>) -> (r: Result<Vec<u32>, ParseFault>)
    ensures
        match numbers(cs@.map_values(|c: Vec<char>| c@)) {
            Ok(vs) => r matches Ok(v) && values_of(v@) == vs,
            Err(e) => r == Err::<Vec<u32>, ParseFault>(e),
        },
{
    let ghost texts = cs@.map_values(|c: Vec<char>| c@);
    let mut out: Vec<u32> = Vec::new();
    let mut i: usize = 0;
    proof {
        assert(texts.take(0) =~= Seq::<Seq<char>>::empty());
        assert(values_of(out@) =~= Seq::<nat>::empty());
    }
    while i < cs.len()
        invariant
            i <= cs@.len(),
            texts == cs@.map_values(|c: Vec<char>| c@),
            numbers(texts.take(i as int)) == Ok::<Seq<nat>, ParseFault>(values_of(out@)),
        decreases cs@.len() - i,
    {
        proof {
            assert(texts.take(i + 1).drop_last() =~= texts.take(i as int));
            assert(texts.take(i + 1).last() == cs@[i as int]@);
            lemma_numbers_fault(texts, i + 1);
        }
        match parse_numeral(&cs[i]) {
            Err(e) => {
                return Err(e);
            },
            Ok(v) => {
                let ghost before = values_of(out@);
                out.push(v);
                proof {
                    assert(values_of(out@) =~= before.push(v as nat));
                }
            },
        }
        i = i + 1;
    }
    proof {
        assert(texts.take(texts.len() as int) =~= texts);
    }
    Ok(out)
}

/// A fault in a prefix of a list of components is the fault of the whole list.
proof fn lemma_numbers_fault(cs: Seq<Seq<char>>, k: int)
    requires
        0 <= k <= cs.len(),
    ensures
        numbers(cs.take(k)) matches Err(e) ==> numbers(cs) == Err::<Seq<nat>, ParseFault>(e),
    decreases cs.len() - k,
{
    if k < cs.len() {
        lemma_numbers_fault(cs, k + 1);
        assert(cs.take(k + 1).drop_last() =~= cs.take(k));
    } else {
        assert(cs.take(k) =~= cs);
    }
}

/// Ranks two lists of numbers of one length, component by component.
pub fn rank_numbers(a: &Vec<u32>, b: &Vec<u32>) -> (r: Rank)
    requires
        a@.len() == b@.len(),
    ensures
        r == rank_from(values_of(a@), values_of(b@), 0),
{
    let mut i: usize = 0;
    while i < a.len()
        invariant
            i <= a@.len(),
            a@.len() == b@.len(),
            rank_from(values_of(a@), values_of(b@), 0) == rank_from(
                values_of(a@),
                values_of(b@),
                i as int,
            ),
        decreases a@.len() - i,
    {
        if a[i] < b[i] {
            return Rank::Less;
        }
        if a[i] > b[i] {
            return Rank::Greater;
        }
        i = i + 1;
    }
    Rank::Equal
}

/// Ranks the version `first` against the version `second`. Both are numbers
/// between dots, as many in the one as in the other; the numbers count, not
/// the way they are written.
pub fn rank_versions(first: &str, second: &str) -> (r: Result<Rank, VersionFault>)
    ensures
        r == version_rank(first@, second@),
{
    let a = match parse_components(&split_dots(first)) {
        Ok(a) => a,
        Err(e) => {
            return Err(VersionFault::First(e));
        },
    };
    let b = match parse_components(&split_dots(second)) {
        Ok(b) => b,
        Err(e) => {
            return Err(VersionFault::Second(e));
        },
    };
    if a.len() != b.len() {
        return Err(VersionFault::Components);
    }
    Ok(rank_numbers(&a, &b))
}

} // verus!
