//! Custom port range expressions such as `80,443,8000-9000`.

use vstd::prelude::*;
use crate::errors::ModeError;
use crate::text::{
    all_digits, chars_of, digits_value, has_char, join3, parse_u16, parse_u16_chars, split,
    split_chars, string_of, trim, trim_chars, views_of, lemma_split_len,
};

verus! {

pub open spec fn order_message() -> Seq<char> {
    "Start port must be less than or equal to end port"@
}

pub open spec fn bounds_message() -> Seq<char> {
    "Port numbers must be between 1 and 65535"@
}

pub open spec fn quoted(prefix: Seq<char>, s: Seq<char>) -> Seq<char> {
    prefix + s + "'"@
}

/// The inclusive range that one comma-separated token names, or the message
/// that rejects it.
pub open spec fn token_range(raw: Seq<char>) -> Result<(u16, u16), Seq<char>> {
    let part = trim(raw);
    if part.contains('-') {
        let halves = split(part, '-');
        if halves.len() != 2 {
            Err(quoted("Invalid port range format: '"@, part))
        } else {
            match parse_u16(trim(halves[0])) {
                None => Err(quoted("Invalid port number: '"@, halves[0])),
                Some(start) => match parse_u16(trim(halves[1])) {
                    None => Err(quoted("Invalid port number: '"@, halves[1])),
                    Some(end) => if start > end {
                        Err(order_message())
                    } else if start == 0 {
                        Err(bounds_message())
                    } else {
                        Ok((start, end))
                    },
                },
            }
        }
    } else {
        match parse_u16(part) {
            None => Err(quoted("Invalid port number: '"@, part)),
            Some(p) => if p == 0 {
                Err(bounds_message())
            } else {
                Ok((p, p))
            },
        }
    }
}

pub open spec fn range_set(lo: u16, hi: u16) -> Set<u16> {
    Set::new(|p: u16| lo <= p <= hi)
}

/// The ports that a list of tokens names, or the message of the first token
/// that is rejected.
pub open spec fn tokens_ports(tokens: Seq<Seq<char>>) -> Result<Set<u16>, Seq<char>>
    decreases tokens.len(),
{
    if tokens.len() == 0 {
        Ok(Set::empty())
    } else {
        match tokens_ports(tokens.drop_last()) {
            Err(m) => Err(m),
            Ok(set) => match token_range(tokens.last()) {
                Err(m) => Err(m),
                Ok((lo, hi)) => Ok(set.union(range_set(lo, hi))),
            },
        }
    }
}

/// The ports that a range expression names, or why it is rejected.
pub open spec fn port_range_ports(s: Seq<char>) -> Result<Set<u16>, Seq<char>> {
    match tokens_ports(split(s, ',')) {
        Err(m) => Err(m),
        Ok(set) => if set == Set::<u16>::empty() {
            Err("No valid ports specified"@)
        } else {
            Ok(set)
        },
    }
}

pub open spec fn strictly_ascending(v: Seq<u16>) -> bool {
    forall|i: int, j: int| 0 <= i < j < v.len() ==> v[i] < v[j]
}

/// `v` lists exactly the ports of `set`, ascending, each once.
pub open spec fn lists_ascending(v: Seq<u16>, set: Set<u16>) -> bool {
    &&& strictly_ascending(v)
    &&& forall|i: int| 0 <= i < v.len() ==> set.contains(#[trigger] v[i])
    &&& forall|p: u16| set.contains(p) ==> v.contains(p)
}

/// Checks one token and gives its range, or the message that rejects it.
fn check_token(raw: &Vec<char>) -> (r: Result<(u16, u16), String>)
    ensures
        r matches Ok(x) ==> token_range(raw@) == Ok::<(u16, u16), Seq<char>>(x),
        r matches Err(m) ==> token_range(raw@) == Err::<(u16, u16), Seq<char>>(m@),
{
    let part = trim_chars(raw);
    if has_char(&part, '-') {
        let halves = split_chars(&part, '-');
        assert(views_of(halves@).len() == halves@.len());
        if halves.len() != 2 {
            let p = string_of(&part);
            return Err(join3("Invalid port range format: '", p.as_str(), "'"));
        }
        assert(views_of(halves@)[0] == halves@[0]@);
        assert(views_of(halves@)[1] == halves@[1]@);
        let lo_text = trim_chars(&halves[0]);
        let start = match parse_u16_chars(&lo_text) {
            Some(v) => v,
            None => {
                let h = string_of(&halves[0]);
                return Err(join3("Invalid port number: '", h.as_str(), "'"));
            },
        };
        let hi_text = trim_chars(&halves[1]);
        let end = match parse_u16_chars(&hi_text) {
            Some(v) => v,
            None => {
                let h = string_of(&halves[1]);
                return Err(join3("Invalid port number: '", h.as_str(), "'"));
            },
        };
        if start > end {
            let m = "Start port must be less than or equal to end port".to_owned();
            return Err(m);
        }
        if start == 0 {
            let m = "Port numbers must be between 1 and 65535".to_owned();
            return Err(m);
        }
        Ok((start, end))
    } else {
        match parse_u16_chars(&part) {
            None => {
                let p = string_of(&part);
                Err(join3("Invalid port number: '", p.as_str(), "'"))
            },
            Some(v) => {
                if v == 0 {
                    let m = "Port numbers must be between 1 and 65535".to_owned();
                    Err(m)
                } else {
                    Ok((v, v))
                }
            },
        }
    }
}

/// Parses a range expression into its ports, ascending and each listed once.
pub fn parse_port_range(input: &str) -> (r: Result<Vec<u16>, ModeError>)
    ensures
        port_range_ports(input@) matches Ok(set) ==> r matches Ok(v) && lists_ascending(v@, set),
        port_range_ports(input@) matches Err(m) ==> r matches Err(ModeError::Generic(msg))
            && msg@ == m,
        r matches Ok(v) ==> strictly_ascending(v@) && forall|i: int|
            0 <= i < v@.len() ==> 1 <= #[trigger] v@[i],
        valid_range_expr(input@) ==> r is Ok,
{
    proof {
        if valid_range_expr(input@) {
            lemma_valid_ranges_parse(input@);
        }
    }
    let text = chars_of(input);
    let tokens = split_chars(&text, ',');
    let ghost toks = split(input@, ',');
    proof {
        lemma_split_len(input@, ',');
    }
    let mut marks: Vec<bool> = Vec::new();
    while marks.len() < 65536
        invariant
            marks@.len() <= 65536,
            forall|i: int| 0 <= i < marks@.len() ==> !#[trigger] marks@[i],
        decreases 65536 - marks@.len(),
    {
        marks.push(false);
    }
    let ghost mut set: Set<u16> = Set::empty();
    let mut k: usize = 0;
    assert(toks.take(0) =~= Seq::<Seq<char>>::empty());
    while k < tokens.len()
        invariant
            views_of(tokens@) == toks,
            toks == split(input@, ','),
            k <= tokens@.len(),
            marks@.len() == 65536,
            tokens_ports(toks.take(k as int)) == Ok::<Set<u16>, Seq<char>>(set),
            forall|p: u16| #[trigger] marks@[p as int] == set.contains(p),
            !marks@[0],
        decreases tokens.len() - k,
    {
        assert(toks.take(k + 1).drop_last() =~= toks.take(k as int));
        assert(toks.take(k + 1).last() == tokens@[k as int]@);
        match check_token(&tokens[k]) {
            Err(m) => {
                assert(token_range(toks.take(k + 1).last()) == Err::<(u16, u16), Seq<char>>(m@));
                assert(tokens_ports(toks.take(k + 1)) == Err::<Set<u16>, Seq<char>>(m@));
                proof {
                    lemma_tokens_error_persists(toks, k as int + 1);
                }
                assert(tokens_ports(toks) == Err::<Set<u16>, Seq<char>>(m@));
                return Err(ModeError::Generic(m));
            },
            Ok((lo, hi)) => {
                let ghost before = set;
                let mut q: u32 = lo as u32;
                while q <= hi as u32
                    invariant
                        1 <= lo <= hi,
                        lo as u32 <= q <= hi as u32 + 1,
                        marks@.len() == 65536,
                        forall|p: u16| #[trigger] marks@[p as int] == (before.contains(p)
                            || (lo <= p && (p as u32) < q)),
                        !marks@[0],
                    decreases hi as u32 + 1 - q,
                {
                    marks.set(q as usize, true);
                    assert forall|p: u16| #[trigger] marks@[p as int] == (before.contains(p)
                        || (lo <= p && (p as u32) < q + 1)) by {
                        if p as u32 == q {
                        } else {
                        }
                    }
                    q = q + 1;
                }
                proof {
                    set = before.union(range_set(lo, hi));
                }
                k = k + 1;
            },
        }
    }
    assert(toks.take(tokens@.len() as int) =~= toks);
    let mut out: Vec<u16> = Vec::new();
    let mut q: u32 = 0;
    while q < 65536
        invariant
            q <= 65536,
            marks@.len() == 65536,
            forall|p: u16| #[trigger] marks@[p as int] == set.contains(p),
            !marks@[0],
            strictly_ascending(out@),
            forall|i: int| 0 <= i < out@.len() ==> (out@[i] as u32) < q && 1 <= #[trigger] out@[i]
                && set.contains(out@[i]),
            forall|p: u16| (p as u32) < q && set.contains(p) ==> out@.contains(p),
        decreases 65536 - q,
    {
        if marks[q as usize] {
            let ghost prev = out@;
            out.push(q as u16);
            assert forall|p: u16| (p as u32) < q + 1 && set.contains(p) implies out@.contains(p) by {
                if p as u32 == q {
                    assert(out@[prev.len() as int] == p);
                } else {
                    let i = choose|i: int| 0 <= i < prev.len() && prev[i] == p;
                    assert(out@[i] == p);
                }
            }
        }
        q = q + 1;
    }
    if out.len() == 0 {
        assert(set =~= Set::<u16>::empty()) by {
            assert forall|p: u16| !set.contains(p) by {
                if set.contains(p) {
                    assert(out@.contains(p));
                }
            }
        }
        return Err(ModeError::Generic("No valid ports specified".to_owned()));
    }
    assert(set != Set::<u16>::empty()) by {
        assert(set.contains(out@[0]));
    }
    Ok(out)
}

/// Once a token is rejected, every longer list of tokens is rejected with the
/// same message.
proof fn lemma_tokens_error_persists(toks: Seq<Seq<char>>, k: int)
    requires
        1 <= k <= toks.len(),
        tokens_ports(toks.take(k)) is Err,
    ensures
        tokens_ports(toks) == tokens_ports(toks.take(k)),
    decreases toks.len() - k,
{
    if k < toks.len() {
        assert(toks.take(k + 1).drop_last() =~= toks.take(k));
        lemma_tokens_error_persists(toks, k + 1);
    } else {
        assert(toks.take(k) =~= toks);
    }
}

/// One or more decimal digits.
pub open spec fn is_decimal(s: Seq<char>) -> bool {
    s.len() > 0 && all_digits(s)
}

/// A well-formed token: once trimmed, either a decimal port from 1 to 65535,
/// or two such ports joined by one hyphen (each side may carry spaces), the
/// first no greater than the second.
pub open spec fn valid_token(raw: Seq<char>) -> bool {
    let t = trim(raw);
    if t.contains('-') {
        let halves = split(t, '-');
        &&& halves.len() == 2
        &&& is_decimal(trim(halves[0]))
        &&& is_decimal(trim(halves[1]))
        &&& 1 <= digits_value(trim(halves[0]))
        &&& digits_value(trim(halves[0])) <= digits_value(trim(halves[1]))
        &&& digits_value(trim(halves[1])) <= 65535
    } else {
        is_decimal(t) && 1 <= digits_value(t) <= 65535
    }
}

/// A well-formed range expression: every comma-separated token is well formed.
pub open spec fn valid_range_expr(s: Seq<char>) -> bool {
    forall|i: int| 0 <= i < split(s, ',').len() ==> valid_token(#[trigger] split(s, ',')[i])
}

proof fn lemma_decimal_parses(t: Seq<char>)
    requires
        is_decimal(t),
        digits_value(t) <= 65535,
    ensures
        parse_u16(t) == Some(digits_value(t) as u16),
{
    assert(t[0] != '+');
}

proof fn lemma_valid_token_range(raw: Seq<char>)
    requires
        valid_token(raw),
    ensures
        token_range(raw) matches Ok((lo, hi)) && 1 <= lo <= hi,
{
    let t = trim(raw);
    if t.contains('-') {
        let halves = split(t, '-');
        lemma_decimal_parses(trim(halves[0]));
        lemma_decimal_parses(trim(halves[1]));
    } else {
        lemma_decimal_parses(t);
    }
}

proof fn lemma_valid_tokens_ports(toks: Seq<Seq<char>>)
    requires
        forall|i: int| 0 <= i < toks.len() ==> valid_token(#[trigger] toks[i]),
    ensures
        tokens_ports(toks) is Ok,
        toks.len() > 0 ==> tokens_ports(toks)->Ok_0 != Set::<u16>::empty(),
    decreases toks.len(),
{
    if toks.len() > 0 {
        let prev = toks.drop_last();
        assert forall|i: int| 0 <= i < prev.len() implies valid_token(#[trigger] prev[i]) by {
            assert(prev[i] == toks[i]);
        }
        lemma_valid_tokens_ports(prev);
        lemma_valid_token_range(toks.last());
        let (lo, hi) = token_range(toks.last())->Ok_0;
        assert(tokens_ports(toks)->Ok_0.contains(lo));
    }
}

/// Every well-formed range expression parses: its ports, ascending and each
/// once, are what `parse_port_range` returns.
pub proof fn lemma_valid_ranges_parse(s: Seq<char>)
    requires
        valid_range_expr(s),
    ensures
        port_range_ports(s) is Ok,
{
    lemma_split_len(s, ',');
    lemma_valid_tokens_ports(split(s, ','));
}

} // verus!
