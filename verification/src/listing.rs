use vstd::prelude::*;

use crate::text::{chars_to_string, str_to_chars};

verus! {

/// `str::split` on a single character: the pieces between separators
/// (always at least one).
pub open spec fn split_char(s: Seq<char>, sep: char) -> Seq<Seq<char>>
    decreases s.len(),
{
    if s.len() == 0 {
        seq![seq![]]
    } else {
        let r = split_char(s.drop_last(), sep);
        if s.last() == sep {
            r.push(seq![])
        } else {
            r.update(r.len() - 1, r.last().push(s.last()))
        }
    }
}

pub proof fn lemma_split_char_nonempty(s: Seq<char>, sep: char)
    ensures
        split_char(s, sep).len() >= 1,
    decreases s.len(),
{
    if s.len() > 0 {
        lemma_split_char_nonempty(s.drop_last(), sep);
    }
}

/// The pieces as sequences of characters.
pub open spec fn pieces_view(pieces: Seq<Vec<char>>) -> Seq<Seq<char>> {
    Seq::new(pieces.len(), |i: int| pieces[i]@)
}

/// Splits `v` at every `sep`.
pub fn split_on(v: &Vec<char>, sep: char) -> (pieces: Vec<Vec<char>>)
    ensures
        pieces_view(pieces@) == split_char(v@, sep),
{
    let mut done: Vec<Vec<char>> = Vec::new();
    let mut cur: Vec<char> = Vec::new();
    let mut i: usize = 0;
    assert(v@.subrange(0, 0) =~= Seq::<char>::empty());
    assert(pieces_view(done@).push(cur@) =~= split_char(v@.subrange(0, 0), sep));
    while i < v.len()
        invariant
            i <= v@.len(),
            pieces_view(done@).push(cur@) == split_char(v@.subrange(0, i as int), sep),
        decreases v@.len() - i,
    {
        let ghost prev = v@.subrange(0, i as int);
        let ghost next = v@.subrange(0, i + 1);
        proof {
            assert(next.drop_last() =~= prev);
            lemma_split_char_nonempty(prev, sep);
        }
        let c = v[i];
        if c == sep {
            let ghost old_done = pieces_view(done@);
            let finished = cur;
            done.push(finished);
            cur = Vec::new();
            proof {
                assert(pieces_view(done@) =~= old_done.push(finished@));
                assert(pieces_view(done@).push(cur@) =~= split_char(next, sep));
            }
        } else {
            let ghost old_cur = cur@;
            cur.push(c);
            proof {
                let r = split_char(prev, sep);
                assert(r == pieces_view(done@).push(old_cur));
                assert(pieces_view(done@).push(cur@) =~= r.update(r.len() - 1, r.last().push(c)));
            }
        }
        i += 1;
    }
    assert(v@.subrange(0, v@.len() as int) =~= v@);
    let ghost before = pieces_view(done@);
    let ghost last = cur@;
    done.push(cur);
    assert(pieces_view(done@) =~= before.push(last));
    done
}

/// Whether `c` is an ASCII decimal digit.
pub open spec fn is_digit(c: char) -> bool {
    '0' <= c <= '9'
}

/// Value of a string of decimal digits.
pub open spec fn digits_value(d: Seq<char>) -> nat
    decreases d.len(),
{
    if d.len() == 0 {
        0
    } else {
        digits_value(d.drop_last()) * 10 + ((d.last() as u32 - 48) as nat)
    }
}

/// Whether every character of `d` is a decimal digit.
pub open spec fn all_digits(d: Seq<char>) -> bool {
    forall|i: int| 0 <= i < d.len() ==> is_digit(#[trigger] d[i])
}

/// `s` without its leading `+` or `-`, if any.
pub open spec fn sign_stripped(s: Seq<char>) -> Seq<char> {
    if s.len() > 0 && (s[0] == '+' || s[0] == '-') {
        s.drop_first()
    } else {
        s
    }
}

/// `str::parse::<i64>`: an optional `+` or `-` followed by one or more
/// decimal digits, whose value fits in `i64`.
pub open spec fn parse_i64_spec(s: Seq<char>) -> Option<i64> {
    let digits = sign_stripped(s);
    if s.len() == 0 || digits.len() == 0 || !all_digits(digits) {
        None
    } else {
        let v: int = if s[0] == '-' {
            -(digits_value(digits) as int)
        } else {
            digits_value(digits) as int
        };
        if i64::MIN <= v <= i64::MAX {
            Some(v as i64)
        } else {
            None
        }
    }
}

/// `s.parse::<i64>()` on the characters of a string.
pub fn parse_i64(s: &Vec<char>) -> (r: Option<i64>)
    ensures
        r == parse_i64_spec(s@),
{
    if s.len() == 0 {
        return None;
    }
    let neg = s[0] == '-';
    let start: usize = if s[0] == '+' || s[0] == '-' {
        1
    } else {
        0
    };
    let ghost digits = s@.subrange(start as int, s@.len() as int);
    proof {
        if start == 1 {
            assert(digits =~= s@.drop_first());
        } else {
            assert(digits =~= s@);
        }
        assert(digits == sign_stripped(s@));
    }
    if start == s.len() {
        return None;
    }
    // magnitude of the digits read so far; stops growing past the i64 range
    let mut mag: u64 = 0;
    let mut too_big = false;
    let mut i: usize = start;
    let limit: u64 = 9223372036854775808;
    while i < s.len()
        invariant
            start <= i <= s@.len(),
            s@.len() > 0,
            start == (if s@[0] == '+' || s@[0] == '-' { 1usize } else { 0usize }),
            neg == (s@[0] == '-'),
            limit == 9223372036854775808u64,
            digits == sign_stripped(s@),
            digits == s@.subrange(start as int, s@.len() as int),
            forall|j: int| start <= j < i ==> is_digit(#[trigger] s@[j]),
            !too_big ==> mag == digits_value(s@.subrange(start as int, i as int)),
            !too_big ==> mag <= limit,
            too_big ==> digits_value(s@.subrange(start as int, i as int)) > limit,
        decreases s@.len() - i,
    {
        let c = s[i];
        if !('0' <= c && c <= '9') {
            assert(!is_digit(digits[i - start]));
            assert(!all_digits(digits));
            return None;
        }
        let d = (c as u32 - 48) as u64;
        assert(d <= 9);
        let ghost prev = s@.subrange(start as int, i as int);
        let ghost next = s@.subrange(start as int, i + 1);
        assert(next.drop_last() =~= prev);
        if !too_big {
            if mag > (limit - d) / 10 {
                too_big = true;
                assert(digits_value(next) == mag * 10 + d);
            } else {
                mag = mag * 10 + d;
            }
        } else {
            assert(digits_value(next) == digits_value(prev) * 10 + d);
        }
        i += 1;
    }
    assert(s@.subrange(start as int, s@.len() as int) =~= digits);
    assert(all_digits(digits)) by {
        assert forall|j: int| 0 <= j < digits.len() implies is_digit(#[trigger] digits[j]) by {
            assert(digits[j] == s@[start + j]);
        }
    }
    if too_big {
        return None;
    }
    if neg {
        if mag == limit {
            Some(i64::MIN)
        } else {
            Some(-(mag as i64))
        }
    } else {
        if mag == limit {
            None
        } else {
            Some(mag as i64)
        }
    }
}

/// One entry of a directory listing: size and name.
pub struct FileDeet {
    pub filename: String,
    pub filesize: i64,
}

/// What a listing line yields: lines whose first space-separated piece is
/// empty, or that have no second piece, yield nothing; otherwise the second
/// piece is the name and the first one, parsed as `i64` (0 when it does not
/// parse), the size.
pub open spec fn file_entry(line: Seq<char>) -> Option<(Seq<char>, i64)> {
    let parts = split_char(line, ' ');
    if parts[0].len() == 0 || parts.len() < 2 {
        None
    } else {
        Some((
            parts[1],
            match parse_i64_spec(parts[0]) {
                Some(v) => v,
                None => 0,
            },
        ))
    }
}

/// The entries of the given lines, in order.
pub open spec fn file_entries(lines: Seq<Seq<char>>) -> Seq<(Seq<char>, i64)>
    decreases lines.len(),
{
    if lines.len() == 0 {
        seq![]
    } else {
        let prev = file_entries(lines.drop_last());
        match file_entry(lines.last()) {
            Some(e) => prev.push(e),
            None => prev,
        }
    }
}

/// Parses `ls -l | awk '{print $5, $9}'` output: one entry per line of the
/// form `<size> <name>`.
pub fn get_files(lsoutput: String) -> (ret: Vec<FileDeet>)
    ensures
        ({
            let es = file_entries(split_char(lsoutput@, '\n'));
            &&& ret@.len() == es.len()
            &&& forall|i: int|
                0 <= i < ret@.len() ==> (#[trigger] ret@[i]).filename@ == es[i].0 && ret@[i].filesize
                    == es[i].1
        }),
{
    let chars = str_to_chars(lsoutput.as_str());
    let lines = split_on(&chars, '\n');
    let ghost ls = pieces_view(lines@);
    let mut ret: Vec<FileDeet> = Vec::new();
    let mut k: usize = 0;
    assert(ls.subrange(0, 0) =~= Seq::<Seq<char>>::empty());
    while k < lines.len()
        invariant
            k <= lines@.len(),
            ls == pieces_view(lines@),
            ls == split_char(lsoutput@, '\n'),
            ({
                let es = file_entries(ls.subrange(0, k as int));
                &&& ret@.len() == es.len()
                &&& forall|i: int|
                    0 <= i < ret@.len() ==> (#[trigger] ret@[i]).filename@ == es[i].0
                        && ret@[i].filesize == es[i].1
            }),
        decreases lines@.len() - k,
    {
        let ghost before = ls.subrange(0, k as int);
        let ghost after = ls.subrange(0, k + 1);
        assert(after.drop_last() =~= before);
        assert(after.last() == lines@[k as int]@);
        let parts = split_on(&lines[k], ' ');
        let ghost sp = split_char(lines@[k as int]@, ' ');
        proof {
            lemma_split_char_nonempty(lines@[k as int]@, ' ');
            assert(sp[0] == parts@[0]@);
        }
        if parts[0].len() == 0 {
            assert(file_entry(after.last()) is None);
            k += 1;
            continue;
        }
        let filesize = match parse_i64(&parts[0]) {
            Some(v) => v,
            None => 0,
        };
        if parts.len() < 2 {
            assert(file_entry(after.last()) is None);
            k += 1;
            continue;
        }
        let filename = chars_to_string(&parts[1]);
        assert(sp[1] == parts@[1]@);
        assert(file_entry(after.last()) == Some((filename@, filesize)));
        ret.push(FileDeet { filename, filesize });
        k += 1;
    }
    assert(ls.subrange(0, lines@.len() as int) =~= ls);
    ret
}

} // verus!
