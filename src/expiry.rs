//! Expiry dates written as fixed-width digit strings.
use vstd::prelude::*;
use crate::text::str_eq;

verus! {

/// The positions of the dashes in `s`, in increasing order.
pub open spec fn dash_positions(s: Seq<char>) -> Seq<int>
    decreases s.len(),
{
    if s.len() == 0 {
        seq![]
    } else {
        let p = dash_positions(s.drop_last());
        if s.last() == '-' {
            p.push(s.len() - 1)
        } else {
            p
        }
    }
}

/// The expiry mode that puts two zeros in front of the date.
pub open spec fn zero_padded_mode() -> Seq<char> {
    seq!['0', '0', 'D', 'D', 'M', 'M', 'Y', 'Y', 'Y', 'Y']
}

/// The encoded expiry: a date `Y-M-D` (exactly two dashes) becomes `D ++ M ++ Y`, after
/// two zeros in the zero-padded mode; any other text is kept as it is.
pub open spec fn expiry_code(date: Seq<char>, mode: Seq<char>) -> Seq<char> {
    let p = dash_positions(date);
    if p.len() != 2 {
        date
    } else {
        let year = date.subrange(0, p[0]);
        let month = date.subrange(p[0] + 1, p[1]);
        let day = date.subrange(p[1] + 1, date.len() as int);
        let body = day + month + year;
        if mode == zero_padded_mode() {
            seq!['0', '0'] + body
        } else {
            body
        }
    }
}

/// The dash positions lie in `s`, mark dashes and increase.
pub proof fn lemma_dash_positions(s: Seq<char>)
    ensures
        forall|k: int|
            0 <= k < dash_positions(s).len() ==> 0 <= #[trigger] dash_positions(s)[k] < s.len()
                && s[dash_positions(s)[k]] == '-',
        forall|k: int, l: int|
            0 <= k < l < dash_positions(s).len() ==> dash_positions(s)[k] < dash_positions(
                s,
            )[l],
    decreases s.len(),
{
    if s.len() > 0 {
        let t = s.drop_last();
        lemma_dash_positions(t);
        let p = dash_positions(t);
        assert(forall|k: int| 0 <= k < p.len() ==> s[#[trigger] p[k]] == t[p[k]]);
        if s.last() == '-' {
            let q = p.push(s.len() - 1);
            assert(dash_positions(s) == q);
            assert(forall|k: int| 0 <= k < p.len() ==> #[trigger] q[k] == p[k]);
        }
    }
}

/// Encodes a date `YYYY-MM-DD` in the expiry mode `fmt`: `DDMMYYYY`, or `00DDMMYYYY` for
/// the zero-padded mode; a text that does not split into three parts at its dashes is
/// returned unchanged.
pub fn encode_expiry(date_str: &str, fmt: &str) -> (r: String)
    ensures
        r@ == expiry_code(date_str@, fmt@),
{
    let n = date_str.unicode_len();
    let mut dashes: Vec<usize> = Vec::new();
    let mut i: usize = 0;
    while i < n
        invariant
            n == date_str@.len(),
            0 <= i <= n,
            dashes@.len() == dash_positions(date_str@.take(i as int)).len(),
            forall|k: int|
                0 <= k < dashes@.len() ==> dashes@[k] as int == #[trigger] dash_positions(
                    date_str@.take(i as int),
                )[k],
        decreases n - i,
    {
        let ghost before = date_str@.take(i as int);
        assert(date_str@.take(i + 1).drop_last() =~= before);
        if date_str.get_char(i) == '-' {
            dashes.push(i);
        }
        i = i + 1;
    }
    assert(date_str@.take(n as int) =~= date_str@);
    if dashes.len() != 2 {
        return String::from_str(date_str);
    }
    proof {
        lemma_dash_positions(date_str@);
        assert(dashes@[0] as int == dash_positions(date_str@.take(n as int))[0]);
        assert(dashes@[1] as int == dash_positions(date_str@.take(n as int))[1]);
    }
    let first = dashes[0];
    let second = dashes[1];
    let year = date_str.substring_char(0, first);
    let month = date_str.substring_char(first + 1, second);
    let day = date_str.substring_char(second + 1, n);
    let mut out = String::new();
    if str_eq(fmt, "00DDMMYYYY") {
        proof {
            reveal_strlit("00DDMMYYYY");
            reveal_strlit("00");
        }
        assert("00DDMMYYYY"@ =~= zero_padded_mode());
        out.append("00");
    }
    out.append(day);
    out.append(month);
    out.append(year);
    proof {
        reveal_strlit("00DDMMYYYY");
        reveal_strlit("00");
        assert("00DDMMYYYY"@ =~= zero_padded_mode());
        assert("00"@ =~= seq!['0', '0']);
        let code = expiry_code(date_str@, fmt@);
        if fmt@ == zero_padded_mode() {
            assert(out@ =~= seq!['0', '0'] + day@ + month@ + year@);
        } else {
            assert(out@ =~= day@ + month@ + year@);
        }
    }
    out
}

} // verus!
