use vstd::prelude::*;
use vstd::string::StrSliceExecFns;
use vstd::string::StringExecFns;
use crate::strutil::dec_text;
use crate::strutil::u64_to_dec;

verus! {

/// A string of `length` copies of `ch`.
pub fn from_char(length: usize, ch: char) -> (r: String)
    ensures
        r@ == Seq::new(length as nat, |i: int| ch),
{
    let mut buf = String::new();
    let mut i: usize = 0;
    while i < length
        invariant
            i <= length,
            buf@ == Seq::new(i as nat, |j: int| ch),
        decreases length - i,
    {
        buf.push(ch);
        proof {
            assert(Seq::new(i as nat, |j: int| ch).push(ch) =~= Seq::new(
                (i + 1) as nat,
                |j: int| ch,
            ));
        }
        i = i + 1;
    }
    buf
}

/// The body of one progress report: `{label} {written}/{total}`.
pub open spec fn progress_text_spec(label: Seq<char>, written: nat, total: Seq<char>) -> Seq<
    char,
> {
    label + " "@ + dec_text(written) + "/"@ + total
}

/// Render the body of one progress report.
pub fn progress_text(label: &str, written: u64, total: &str) -> (r: String)
    ensures
        r@ == progress_text_spec(label@, written as nat, total@),
{
    let mut s = String::from_str(label);
    s.append(" ");
    let w = u64_to_dec(written);
    s.append(w.as_str());
    s.append("/");
    s.append(total);
    proof {
        assert(s@ =~= progress_text_spec(label@, written as nat, total@));
    }
    s
}

/// Everything one progress update writes to the terminal: enough backspace
/// characters to erase the previous rendering of the same report, the new
/// text, and a line terminator once the transfer has finished.
pub fn progress_render(label: &str, written: u64, total: &str, finished: bool) -> (r: String)
    ensures
        r@ == Seq::new(
            progress_text_spec(label@, written as nat, total@).len(),
            |i: int| '\x08',
        ) + progress_text_spec(label@, written as nat, total@) + (if finished {
            "\n"@
        } else {
            Seq::<char>::empty()
        }),
{
    let text = progress_text(label, written, total);
    let n: usize = text.as_str().unicode_len();
    let mut s = from_char(n, '\x08');
    s.append(text.as_str());
    if finished {
        s.append("\n");
    }
    proof {
        let body = progress_text_spec(label@, written as nat, total@);
        if finished {
            assert(s@ =~= Seq::new(body.len(), |i: int| '\x08') + body + "\n"@);
        } else {
            assert(s@ =~= Seq::new(body.len(), |i: int| '\x08') + body + Seq::<char>::empty());
        }
    }
    s
}

} // verus!
