//! Text utilities the chat core needs: whitespace trimming, decimal
//! rendering of connection numbers, and exact string comparison.

use vstd::prelude::*;

verus! {

/// The view of an optional string.
pub open spec fn str_opt_view(o: Option<String>) -> Option<Seq<char>> {
    match o {
        Some(s) => Some(s@),
        None => None,
    }
}

/// The views of a vector of strings, element by element.
pub open spec fn string_views(v: Seq<String>) -> Seq<Seq<char>> {
    v.map_values(|s: String| s@)
}

/// The whitespace characters a line of the chat protocol can carry.
pub open spec fn is_space_char(c: char) -> bool {
    c == ' ' || c == '\t' || c == '\r' || c == '\n'
}

/// `s` with its leading whitespace removed.
pub open spec fn trim_front(s: Seq<char>) -> Seq<char>
    decreases s.len(),
{
    if s.len() > 0 && is_space_char(s[0]) {
        trim_front(s.subrange(1, s.len() as int))
    } else {
        s
    }
}

/// `s` with its trailing whitespace removed.
pub open spec fn trim_back(s: Seq<char>) -> Seq<char>
    decreases s.len(),
{
    if s.len() > 0 && is_space_char(s[s.len() - 1]) {
        trim_back(s.subrange(0, s.len() - 1))
    } else {
        s
    }
}

/// `s` with leading and trailing whitespace removed.
pub open spec fn trimmed(s: Seq<char>) -> Seq<char> {
    trim_back(trim_front(s))
}

proof fn lemma_trim_front_at(s: Seq<char>, i: int)
    requires
        0 <= i <= s.len(),
        forall|k: int| 0 <= k < i ==> is_space_char(s[k]),
        i == s.len() || !is_space_char(s[i]),
    ensures
        trim_front(s) == s.subrange(i, s.len() as int),
    decreases i,
{
    if i == 0 {
        assert(s.subrange(0, s.len() as int) =~= s);
    } else {
        let t = s.subrange(1, s.len() as int);
        lemma_trim_front_at(t, i - 1);
        assert(t.subrange(i - 1, t.len() as int) =~= s.subrange(i, s.len() as int));
    }
}

proof fn lemma_trim_back_at(s: Seq<char>, j: int)
    requires
        0 <= j <= s.len(),
        forall|k: int| j <= k < s.len() ==> is_space_char(s[k]),
        j == 0 || !is_space_char(s[j - 1]),
    ensures
        trim_back(s) == s.subrange(0, j),
    decreases s.len() - j,
{
    if j == s.len() {
        if s.len() > 0 && is_space_char(s[s.len() - 1]) {
            let t = s.subrange(0, s.len() - 1);
            lemma_trim_back_at(t, j - 1);
            assert(false);
        } else {
            assert(s.subrange(0, j) =~= s);
        }
    } else {
        let t = s.subrange(0, s.len() - 1);
        lemma_trim_back_at(t, j);
        assert(t.subrange(0, j) =~= s.subrange(0, j));
    }
}

/// Removes leading and trailing whitespace from a line.
pub fn trim(s: &str) -> (r: String)
    ensures
        r@ == trimmed(s@),
{
    let len = s.unicode_len();
    let mut start: usize = 0;
    while start < len && is_space(s.get_char(start))
        invariant
            0 <= start <= len,
            len == s@.len(),
            forall|k: int| 0 <= k < start ==> is_space_char(s@[k]),
        decreases len - start,
    {
        start = start + 1;
    }
    proof {
        lemma_trim_front_at(s@, start as int);
    }
    if start == len {
        proof {
            assert(trim_front(s@) =~= Seq::<char>::empty());
            assert(trim_back(Seq::<char>::empty()) =~= Seq::<char>::empty());
        }
        return String::new();
    }
    let mut end: usize = len;
    while end > start && is_space(s.get_char(end - 1))
        invariant
            start <= end <= len,
            len == s@.len(),
            start < len,
            !is_space_char(s@[start as int]),
            forall|k: int| end <= k < len ==> is_space_char(s@[k]),
        decreases end,
    {
        end = end - 1;
    }
    proof {
        let t = s@.subrange(start as int, len as int);
        assert(!is_space_char(t[(end - start - 1) as int]));
        lemma_trim_back_at(t, end - start as int);
        assert(t.subrange(0, end - start as int) =~= s@.subrange(start as int, end as int));
    }
    let piece = s.substring_char(start, end);
    piece.to_owned()
}

/// Whether a character is protocol whitespace.
pub fn is_space(c: char) -> (r: bool)
    ensures
        r == is_space_char(c),
{
    c == ' ' || c == '\t' || c == '\r' || c == '\n'
}

/// The character for one decimal digit.
pub open spec fn digit_char(d: nat) -> char {
    if d == 0 {
        '0'
    } else if d == 1 {
        '1'
    } else if d == 2 {
        '2'
    } else if d == 3 {
        '3'
    } else if d == 4 {
        '4'
    } else if d == 5 {
        '5'
    } else if d == 6 {
        '6'
    } else if d == 7 {
        '7'
    } else if d == 8 {
        '8'
    } else {
        '9'
    }
}

/// The decimal digits of `n`, most significant first.
pub open spec fn decimal_digits(n: nat) -> Seq<char>
    decreases n,
{
    if n < 10 {
        seq![digit_char(n)]
    } else {
        decimal_digits(n / 10) + seq![digit_char(n % 10)]
    }
}

fn digit_str(d: u64) -> (r: String)
    requires
        d < 10,
    ensures
        r@ == seq![digit_char(d as nat)],
{
    let r = if d == 0 {
        proof { reveal_strlit("0"); }
        String::from_str("0")
    } else if d == 1 {
        proof { reveal_strlit("1"); }
        String::from_str("1")
    } else if d == 2 {
        proof { reveal_strlit("2"); }
        String::from_str("2")
    } else if d == 3 {
        proof { reveal_strlit("3"); }
        String::from_str("3")
    } else if d == 4 {
        proof { reveal_strlit("4"); }
        String::from_str("4")
    } else if d == 5 {
        proof { reveal_strlit("5"); }
        String::from_str("5")
    } else if d == 6 {
        proof { reveal_strlit("6"); }
        String::from_str("6")
    } else if d == 7 {
        proof { reveal_strlit("7"); }
        String::from_str("7")
    } else if d == 8 {
        proof { reveal_strlit("8"); }
        String::from_str("8")
    } else {
        proof { reveal_strlit("9"); }
        String::from_str("9")
    };
    proof {
        assert(r@ =~= seq![digit_char(d as nat)]);
    }
    r
}

/// Renders `n` in decimal.
pub fn u64_to_string(n: u64) -> (r: String)
    ensures
        r@ == decimal_digits(n as nat),
    decreases n,
{
    if n < 10 {
        digit_str(n)
    } else {
        let mut r = u64_to_string(n / 10);
        let last = digit_str(n % 10);
        r.append(last.as_str());
        proof {
            assert(r@ =~= decimal_digits(n as nat));
        }
        r
    }
}

/// Exact equality of two string slices.
pub fn str_eq(a: &str, b: &str) -> (r: bool)
    ensures
        r == (a@ == b@),
{
    let alen = a.unicode_len();
    let blen = b.unicode_len();
    if alen != blen {
        return false;
    }
    let mut i: usize = 0;
    while i < alen
        invariant
            0 <= i <= alen,
            alen == a@.len(),
            alen == b@.len(),
            forall|k: int| 0 <= k < i ==> a@[k] == b@[k],
        decreases alen - i,
    {
        if a.get_char(i) != b.get_char(i) {
            return false;
        }
        i = i + 1;
    }
    proof {
        assert(a@ =~= b@);
    }
    true
}

/// Concatenation of two string slices.
pub fn concat2(a: &str, b: &str) -> (r: String)
    ensures
        r@ == a@ + b@,
{
    let mut r = a.to_owned();
    r.append(b);
    r
}

} // verus!
