use vstd::prelude::*;
use vstd::string::StrSliceExecFns;
use vstd::string::StringExecFns;

verus! {

/// Relies on std's String::push: appends the given character to the end of
/// the string.
pub assume_specification[ String::push ](s: &mut String, ch: char)
    ensures
        final(s)@ == old(s)@.push(ch),
;

/// The character for one decimal digit.
pub open spec fn dec_digit_char(d: nat) -> char {
    if d == 0 {
        '0'
    } else if d == 1 {
        '1'
    } else if d == 2 {
        '2'
    } else if d == 3 {
        '3'
    } else if d == 4 {
        '4'
    } else if d == 5 {
        '5'
    } else if d == 6 {
        '6'
    } else if d == 7 {
        '7'
    } else if d == 8 {
        '8'
    } else {
        '9'
    }
}

/// The decimal rendering of a natural number, without leading zeros
/// (a single zero for zero itself).
pub open spec fn dec_text(n: nat) -> Seq<char>
    decreases n,
{
    if n < 10 {
        seq![dec_digit_char(n)]
    } else {
        dec_text(n / 10) + seq![dec_digit_char(n % 10)]
    }
}

fn dec_digit(d: u64) -> (c: char)
    requires
        d < 10,
    ensures
        c == dec_digit_char(d as nat),
{
    if d == 0 {
        '0'
    } else if d == 1 {
        '1'
    } else if d == 2 {
        '2'
    } else if d == 3 {
        '3'
    } else if d == 4 {
        '4'
    } else if d == 5 {
        '5'
    } else if d == 6 {
        '6'
    } else if d == 7 {
        '7'
    } else if d == 8 {
        '8'
    } else {
        '9'
    }
}

/// Render a number in decimal.
pub fn u64_to_dec(n: u64) -> (r: String)
    ensures
        r@ == dec_text(n as nat),
{
    let mut digits: Vec<char> = Vec::new();
    digits.push(dec_digit(n % 10));
    let mut m: u64 = n / 10;
    while m > 0
        invariant
            m > 0 ==> dec_text(n as nat) == dec_text(m as nat) + digits@,
            m == 0 ==> dec_text(n as nat) == digits@,
        decreases m,
    {
        let d = dec_digit(m % 10);
        let ghost before = digits@;
        digits.insert(0, d);
        proof {
            assert(digits@ =~= seq![dec_digit_char((m % 10) as nat)] + before);
        }
        m = m / 10;
        proof {
            if m > 0 {
                assert(dec_text(n as nat) =~= dec_text(m as nat) + digits@);
            } else {
                assert(dec_text(n as nat) =~= digits@);
            }
        }
    }
    let mut s = String::new();
    let mut i: usize = 0;
    while i < digits.len()
        invariant
            i <= digits@.len(),
            s@ == digits@.take(i as int),
        decreases digits@.len() - i,
    {
        s.push(digits[i]);
        proof {
            assert(digits@.take(i as int).push(digits@[i as int]) =~= digits@.take(i as int + 1));
        }
        i = i + 1;
    }
    proof {
        assert(digits@.take(digits@.len() as int) =~= digits@);
    }
    s
}

/// The suffix of a path after its last `/`; empty when the path is empty or
/// ends in `/`.
pub open spec fn after_last_slash(s: Seq<char>) -> Seq<char>
    decreases s.len(),
{
    if s.len() == 0 {
        Seq::<char>::empty()
    } else if s[s.len() - 1] == '/' {
        Seq::<char>::empty()
    } else {
        after_last_slash(s.drop_last()) + seq![s[s.len() - 1]]
    }
}

/// The final file-name component of a path: what follows the last `/`, or the
/// whole path when it has none; `None` when that component is empty.
pub fn file_name_of(path: &str) -> (r: Option<String>)
    ensures
        after_last_slash(path@).len() == 0 ==> r is None,
        after_last_slash(path@).len() > 0 ==> (r matches Some(n) && n@ == after_last_slash(path@)),
{
    let len: usize = path.unicode_len();
    let mut start: usize = 0;
    let mut k: usize = 0;
    while k < len
        invariant
            start <= k,
            k <= len,
            len == path@.len(),
            after_last_slash(path@.take(k as int)) == path@.subrange(start as int, k as int),
        decreases len - k,
    {
        let c = path.get_char(k);
        proof {
            let t = path@.take(k as int + 1);
            assert(t.drop_last() =~= path@.take(k as int));
            assert(t[t.len() - 1] == path@[k as int]);
            if c == '/' {
                assert(after_last_slash(t) =~= path@.subrange(k as int + 1, k as int + 1));
            } else {
                assert(after_last_slash(t) =~= path@.subrange(start as int, k as int + 1));
            }
        }
        if c == '/' {
            start = k + 1;
        }
        k = k + 1;
    }
    proof {
        assert(path@.take(len as int) =~= path@);
    }
    if start == len {
        None
    } else {
        Some(String::from_str(path.substring_char(start, len)))
    }
}

} // verus!
