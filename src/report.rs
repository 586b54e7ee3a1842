use vstd::prelude::*;
use vstd::string::StrSliceExecFns;
use vstd::string::StringExecFns;

verus! {

/// The width that implementation names are padded to in a report line.
pub const LABEL_WIDTH: usize = 18;

/// `s` followed by spaces up to `width` characters; `s` itself where it is no
/// shorter.
pub open spec fn pad_right(s: Seq<char>, width: nat) -> Seq<char> {
    if s.len() >= width {
        s
    } else {
        s + Seq::new((width - s.len()) as nat, |i: int| ' ')
    }
}

/// The label that opens an implementation's report line: its name and a colon,
/// padded on the right to `LABEL_WIDTH` characters.
pub fn report_label(name: &str) -> (r: String)
    ensures
        r@ == pad_right(name@ + ":"@, LABEL_WIDTH as nat),
{
    let mut r = String::from_str(name);
    r.append(":");
    proof {
        reveal_strlit(":");
        reveal_strlit(" ");
    }
    let ghost base = r@;
    let n = r.as_str().unicode_len();
    let mut k: usize = n;
    while k < LABEL_WIDTH
        invariant
            n == base.len(),
            n <= k <= LABEL_WIDTH || (n > LABEL_WIDTH && k == n),
            r@ == base + Seq::new((k - n) as nat, |i: int| ' '),
        decreases LABEL_WIDTH - k,
    {
        r.append(" ");
        proof {
            reveal_strlit(" ");
        }
        assert(" "@ =~= seq![' ']);
        assert(r@ =~= base + Seq::new((k + 1 - n) as nat, |i: int| ' '));
        k = k + 1;
    }
    assert(n >= LABEL_WIDTH ==> r@ =~= base);
    r
}

/// Whether an implementation gets a report line: only where it produced at
/// least one sample.
pub fn has_report<T>(samples: &Vec<T>) -> (r: bool)
    ensures
        r == (samples@.len() > 0),
{
    samples.len() > 0
}

} // verus!
