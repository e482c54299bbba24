use vstd::prelude::*;

verus! {

/// Query parameters at the specification level: a sequence of key/value
/// pairs of character sequences, in the order they are sent.
pub type WirePairs = Seq<(Seq<char>, Seq<char>)>;

/// An executable pair list carries exactly the given wire pairs, in order.
pub open spec fn pairs_match(r: Seq<(String, String)>, w: WirePairs) -> bool {
    &&& r.len() == w.len()
    &&& forall|i: int|
        0 <= i < r.len() ==> (#[trigger] r[i]).0@ == w[i].0 && r[i].1@ == w[i].1
}

/// The wire spelling of a boolean query value.
pub open spec fn bool_str_view(b: bool) -> Seq<char> {
    if b {
        "true"@
    } else {
        "false"@
    }
}

/// Render a boolean as its wire spelling.
pub fn bool_to_string(b: bool) -> (s: String)
    ensures
        s@ == bool_str_view(b),
{
    if b {
        String::from_str("true")
    } else {
        String::from_str("false")
    }
}

/// The decimal digit character for one digit value.
pub open spec fn dec_digit_char(d: nat) -> char {
    if d == 0 {
        '0'
    } else if d == 1 {
        '1'
    } else if d == 2 {
        '2'
    } else if d == 3 {
        '3'
    } else if d == 4 {
        '4'
    } else if d == 5 {
        '5'
    } else if d == 6 {
        '6'
    } else if d == 7 {
        '7'
    } else if d == 8 {
        '8'
    } else {
        '9'
    }
}

/// The decimal spelling of a natural number, most significant digit first,
/// with no leading zeros (zero itself spells as one digit).
pub open spec fn dec_str_view(n: nat) -> Seq<char>
    decreases n,
{
    if n < 10 {
        seq![dec_digit_char(n)]
    } else {
        dec_str_view(n / 10) + seq![dec_digit_char(n % 10)]
    }
}

fn digit_string(d: u32) -> (s: String)
    requires
        d < 10,
    ensures
        s@ == seq![dec_digit_char(d as nat)],
{
    let s = match d {
        0 => String::from_str("0"),
        1 => String::from_str("1"),
        2 => String::from_str("2"),
        3 => String::from_str("3"),
        4 => String::from_str("4"),
        5 => String::from_str("5"),
        6 => String::from_str("6"),
        7 => String::from_str("7"),
        8 => String::from_str("8"),
        _ => String::from_str("9"),
    };
    proof {
        reveal_strlit("0");
        reveal_strlit("1");
        reveal_strlit("2");
        reveal_strlit("3");
        reveal_strlit("4");
        reveal_strlit("5");
        reveal_strlit("6");
        reveal_strlit("7");
        reveal_strlit("8");
        reveal_strlit("9");
        assert(s@ =~= seq![dec_digit_char(d as nat)]);
    }
    s
}

/// Render an unsigned number as its decimal wire spelling.
pub fn u32_to_dec_string(n: u32) -> (s: String)
    ensures
        s@ == dec_str_view(n as nat),
    decreases n,
{
    if n < 10 {
        digit_string(n)
    } else {
        let rest = u32_to_dec_string(n / 10);
        let last = digit_string(n % 10);
        rest.concat(last.as_str())
    }
}

} // verus!
