//! Parsing of the syscall override list.
//!
//! The override source is a comma-separated list of decimal syscall numbers
//! (the bytes of an environment variable). Each token is parsed like Rust's
//! standard signed 32-bit integer parse: an optional sign followed by one or
//! more ASCII digits, with the value in range. Unparsable tokens are dropped
//! silently; the surviving values keep the order in which they appear.

use vstd::prelude::*;

verus! {

pub const COMMA: u8 = 44;

pub const PLUS: u8 = 43;

pub const MINUS: u8 = 45;

pub open spec fn is_ascii_digit(b: u8) -> bool {
    48 <= b <= 57
}

pub open spec fn digit_val(b: u8) -> int {
    b - 48
}

/// Value of a sequence of ASCII digits read as a decimal number.
pub open spec fn digits_val(s: Seq<u8>) -> int
    decreases s.len(),
{
    if s.len() == 0 {
        0
    } else {
        digits_val(s.drop_last()) * 10 + digit_val(s.last())
    }
}

pub open spec fn all_digits(s: Seq<u8>) -> bool {
    forall|i: int| 0 <= i < s.len() ==> is_ascii_digit(s[i])
}

/// What a digit string (after an optional sign) parses to: the decimal value
/// if every byte is a digit, there is at least one digit, and the value fits
/// in a signed 32-bit integer; nothing otherwise.
pub open spec fn parse_digits_spec(ds: Seq<u8>, neg: bool) -> Option<i32> {
    if ds.len() == 0 || !all_digits(ds) {
        None
    } else {
        let v = if neg {
            -digits_val(ds)
        } else {
            digits_val(ds)
        };
        if i32::MIN <= v <= i32::MAX {
            Some(v as i32)
        } else {
            None
        }
    }
}

/// What one override token parses to, matching the standard signed decimal
/// integer syntax: optional `+` or `-` sign, then one or more digits.
pub open spec fn parse_i32_spec(s: Seq<u8>) -> Option<i32> {
    if s.len() > 0 && (s[0] == PLUS || s[0] == MINUS) {
        parse_digits_spec(s.subrange(1, s.len() as int), s[0] == MINUS)
    } else {
        parse_digits_spec(s, false)
    }
}

/// The comma-separated tokens of a byte string, in order. An empty string is
/// one empty token; separators at the ends yield empty tokens.
pub open spec fn split_commas(s: Seq<u8>) -> Seq<Seq<u8>>
    decreases s.len(),
{
    if s.len() == 0 {
        seq![Seq::<u8>::empty()]
    } else if s[0] == COMMA {
        seq![Seq::<u8>::empty()] + split_commas(s.drop_first())
    } else {
        let rest = split_commas(s.drop_first());
        seq![seq![s[0]] + rest[0]] + rest.drop_first()
    }
}

/// The values of the tokens that parse, in order; tokens that do not parse
/// are dropped.
pub open spec fn parsed_vals(toks: Seq<Seq<u8>>) -> Seq<i32>
    decreases toks.len(),
{
    if toks.len() == 0 {
        Seq::empty()
    } else {
        let rest = parsed_vals(toks.drop_first());
        match parse_i32_spec(toks[0]) {
            Some(v) => seq![v] + rest,
            None => rest,
        }
    }
}

/// The syscall numbers an override byte string resolves to.
pub open spec fn override_vals(s: Seq<u8>) -> Seq<i32> {
    parsed_vals(split_commas(s))
}

/// The parsed value of one token, as a sequence of zero or one elements.
pub open spec fn opt_val_seq(o: Option<i32>) -> Seq<i32> {
    match o {
        Some(v) => seq![v],
        None => Seq::empty(),
    }
}

proof fn lemma_digits_val_push(t: Seq<u8>, b: u8)
    ensures
        digits_val(t.push(b)) == digits_val(t) * 10 + digit_val(b),
{
    assert(t.push(b).drop_last() =~= t);
    assert(t.push(b).last() == b);
}

proof fn lemma_digits_val_nonneg(t: Seq<u8>)
    requires
        all_digits(t),
    ensures
        digits_val(t) >= 0,
    decreases t.len(),
{
    if t.len() > 0 {
        assert(all_digits(t.drop_last()));
        lemma_digits_val_nonneg(t.drop_last());
    }
}

/// Parse one token as a signed 32-bit decimal integer.
pub fn parse_i32(s: &Vec<u8>) -> (r: Option<i32>)
    ensures
        r == parse_i32_spec(s@),
{
    let n = s.len();
    let mut i: usize = 0;
    let mut neg = false;
    if n > 0 && (s[0] == PLUS || s[0] == MINUS) {
        neg = s[0] == MINUS;
        i = 1;
    }
    let start = i;
    let ghost ds = s@.subrange(start as int, n as int);
    proof {
        if n > 0 && (s@[0] == PLUS || s@[0] == MINUS) {
            assert(ds == s@.subrange(1, n as int));
        } else {
            assert(ds =~= s@);
        }
        assert(parse_i32_spec(s@) == parse_digits_spec(ds, neg));
    }
    if i == n {
        proof {
            assert(ds.len() == 0);
            assert(parse_digits_spec(ds, neg) is None);
            assert(parse_i32_spec(s@) is None);
        }
        return None;
    }
    let mut acc: u64 = 0;
    let mut big = false;
    while i < n
        invariant
            start <= i <= n == s@.len(),
            ds == s@.subrange(start as int, n as int),
            parse_i32_spec(s@) == parse_digits_spec(ds, neg),
            all_digits(s@.subrange(start as int, i as int)),
            !big ==> acc == digits_val(s@.subrange(start as int, i as int)) && acc
                <= 0x8000_0000,
            big ==> digits_val(s@.subrange(start as int, i as int)) > 0x8000_0000,
        decreases n - i,
    {
        let ghost seen = s@.subrange(start as int, i as int);
        let b = s[i];
        if b < 48 || b > 57 {
            proof {
                assert(ds[i - start] == b);
                assert(!all_digits(ds));
            }
            return None;
        }
        proof {
            assert(s@.subrange(start as int, i + 1 as int) =~= seen.push(b));
            lemma_digits_val_push(seen, b);
            if big {
                lemma_digits_val_nonneg(seen);
            }
        }
        if !big {
            acc = acc * 10 + ((b - 48) as u64);
            if acc > 0x8000_0000 {
                big = true;
            }
        }
        i = i + 1;
    }
    proof {
        assert(s@.subrange(start as int, i as int) == ds);
        assert(all_digits(ds));
        assert(ds.len() > 0);
    }
    if big {
        return None;
    }
    if neg {
        let v64: i64 = -(acc as i64);
        proof {
            assert(i32::MIN <= -digits_val(ds) <= i32::MAX);
        }
        Some(v64 as i32)
    } else {
        if acc > 0x7fff_ffff {
            return None;
        }
        Some(acc as i32)
    }
}

proof fn lemma_split_commas_len(s: Seq<u8>)
    ensures
        split_commas(s).len() >= 1,
    decreases s.len(),
{
    if s.len() > 0 {
        lemma_split_commas_len(s.drop_first());
    }
}

/// The first token of a string whose bytes up to `k` hold no separator runs
/// to `k`: the split is the head up to `k` followed by the split of the tail.
proof fn lemma_split_first(s: Seq<u8>, k: int)
    requires
        0 <= k <= s.len(),
        forall|j: int| 0 <= j < k ==> s[j] != COMMA,
        k < s.len() ==> s[k] == COMMA,
    ensures
        k == s.len() ==> split_commas(s) =~~= seq![s],
        k < s.len() ==> split_commas(s) =~~= seq![s.subrange(0, k)] + split_commas(
            s.subrange(k + 1, s.len() as int),
        ),
    decreases k,
{
    lemma_split_commas_len(s);
    if k == 0 {
        if 0 < s.len() {
            assert(s[0] == COMMA);
            assert(s.subrange(0, 0) =~= Seq::<u8>::empty());
            assert(s.subrange(1, s.len() as int) =~= s.drop_first());
        } else {
            assert(s =~= Seq::<u8>::empty());
        }
    } else {
        let t = s.drop_first();
        lemma_split_commas_len(t);
        lemma_split_first(t, k - 1);
        let rest = split_commas(t);
        assert(s[0] != COMMA);
        assert(split_commas(s) == seq![seq![s[0]] + rest[0]] + rest.drop_first());
        if k == s.len() {
            assert(rest =~~= seq![t]);
            assert(seq![s[0]] + t =~= s);
            assert((seq![seq![s[0]] + rest[0]] + rest.drop_first()) =~~= seq![s]);
        } else {
            let head = t.subrange(0, k - 1);
            let tail = t.subrange(k, t.len() as int);
            assert(rest =~~= seq![head] + split_commas(tail));
            assert(rest[0] == head);
            assert(seq![s[0]] + head =~= s.subrange(0, k));
            assert(tail =~= s.subrange(k + 1, s.len() as int));
            assert(rest.drop_first() =~~= split_commas(tail));
        }
    }
}

proof fn lemma_parsed_vals_cons(a: Seq<u8>, b: Seq<Seq<u8>>)
    ensures
        parsed_vals(seq![a] + b) == opt_val_seq(parse_i32_spec(a)) + parsed_vals(b),
{
    let toks = seq![a] + b;
    assert(toks.len() > 0);
    assert(toks[0] == a);
    assert(toks.drop_first() =~= b);
    assert(opt_val_seq(parse_i32_spec(a)) + parsed_vals(b) =~= parsed_vals(toks));
}

/// Splitting off the first token splits the parsed values the same way.
proof fn lemma_override_vals_first(s: Seq<u8>, k: int)
    requires
        0 <= k <= s.len(),
        forall|j: int| 0 <= j < k ==> s[j] != COMMA,
        k < s.len() ==> s[k] == COMMA,
    ensures
        k == s.len() ==> override_vals(s) == opt_val_seq(parse_i32_spec(s)),
        k < s.len() ==> override_vals(s) == opt_val_seq(parse_i32_spec(s.subrange(0, k)))
            + override_vals(s.subrange(k + 1, s.len() as int)),
{
    lemma_split_first(s, k);
    if k == s.len() {
        lemma_parsed_vals_cons(s, Seq::<Seq<u8>>::empty());
        assert(seq![s] + Seq::<Seq<u8>>::empty() =~= seq![s]);
        assert(parsed_vals(Seq::<Seq<u8>>::empty()) =~= Seq::<i32>::empty());
        assert(override_vals(s) =~= opt_val_seq(parse_i32_spec(s)));
    } else {
        lemma_parsed_vals_cons(s.subrange(0, k), split_commas(s.subrange(k + 1, s.len() as int)));
    }
}

/// Parse a full override byte string: the values of the tokens that parse,
/// in the order encountered.
pub fn parse_override(s: &Vec<u8>) -> (r: Vec<i32>)
    ensures
        r@ == override_vals(s@),
{
    let n = s.len();
    let mut out: Vec<i32> = Vec::new();
    let mut cur: Vec<u8> = Vec::new();
    let mut start: usize = 0;
    let mut i: usize = 0;
    proof {
        assert(s@.subrange(0, n as int) =~= s@);
        assert(out@ + override_vals(s@) =~= override_vals(s@));
    }
    while i < n
        invariant
            start <= i <= n == s@.len(),
            cur@ == s@.subrange(start as int, i as int),
            forall|j: int| start <= j < i ==> s@[j] != COMMA,
            override_vals(s@) == out@ + override_vals(s@.subrange(start as int, n as int)),
        decreases n - i,
    {
        let b = s[i];
        if b == COMMA {
            let ghost suffix = s@.subrange(start as int, n as int);
            let ghost rest = s@.subrange(i + 1 as int, n as int);
            let ghost out0 = out@;
            proof {
                assert(suffix[i - start] == COMMA);
                lemma_override_vals_first(suffix, i - start);
                assert(suffix.subrange(0, i - start) =~= cur@);
                assert(suffix.subrange(i - start + 1, suffix.len() as int) =~= rest);
                assert(override_vals(suffix) == opt_val_seq(parse_i32_spec(cur@)) + override_vals(
                    rest,
                ));
            }
            match parse_i32(&cur) {
                Some(v) => out.push(v),
                None => {},
            }
            proof {
                assert(out@ + override_vals(rest) =~= out0 + override_vals(suffix));
            }
            cur = Vec::new();
            start = i + 1;
            proof {
                assert(cur@ =~= s@.subrange(start as int, start as int));
            }
        } else {
            cur.push(b);
            proof {
                assert(cur@ =~= s@.subrange(start as int, i + 1 as int));
            }
        }
        i = i + 1;
    }
    let ghost suffix = s@.subrange(start as int, n as int);
    let ghost out0 = out@;
    proof {
        lemma_override_vals_first(suffix, n - start);
        assert(suffix =~= cur@);
        assert(override_vals(suffix) == opt_val_seq(parse_i32_spec(cur@)));
    }
    match parse_i32(&cur) {
        Some(v) => out.push(v),
        None => {},
    }
    proof {
        assert(out@ =~= out0 + override_vals(suffix));
    }
    out
}

} // verus!
