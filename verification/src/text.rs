//! Text building blocks: decimal numerals, joined id strings, bracketed lists
//! and capitalisation.
use vstd::prelude::*;

verus! {

/// The character of a decimal digit.
pub open spec fn digit_char(d: int) -> char {
    ('0' as int + d) as char
}

/// The decimal numeral of a natural number, without leading zeros.
pub open spec fn nat_decimal(n: nat) -> Seq<char>
    decreases n,
{
    if n < 10 {
        seq![digit_char(n as int)]
    } else {
        nat_decimal(n / 10).push(digit_char((n % 10) as int))
    }
}

/// The decimal numeral of an integer, as `to_string` writes it.
pub open spec fn decimal(i: int) -> Seq<char> {
    if i < 0 {
        seq!['-'] + nat_decimal((-i) as nat)
    } else {
        nat_decimal(i as nat)
    }
}

fn digit_text(d: u64) -> (s: &'static str)
    requires
        d < 10,
    ensures
        s@ == seq![digit_char(d as int)],
{
    proof {
        reveal_strlit("0");
        reveal_strlit("1");
        reveal_strlit("2");
        reveal_strlit("3");
        reveal_strlit("4");
        reveal_strlit("5");
        reveal_strlit("6");
        reveal_strlit("7");
        reveal_strlit("8");
        reveal_strlit("9");
    }
    match d {
        0 => "0",
        1 => "1",
        2 => "2",
        3 => "3",
        4 => "4",
        5 => "5",
        6 => "6",
        7 => "7",
        8 => "8",
        _ => "9",
    }
}

/// Appends the decimal numeral of `n`.
pub fn append_nat_decimal(out: &mut String, n: u64)
    ensures
        final(out)@ == old(out)@ + nat_decimal(n as nat),
    decreases n,
{
    if n >= 10 {
        append_nat_decimal(out, n / 10);
    }
    out.append(digit_text(n % 10));
}

/// Appends the decimal numeral of `i`.
pub fn append_decimal(out: &mut String, i: i64)
    requires
        i > i64::MIN,
    ensures
        final(out)@ == old(out)@ + decimal(i as int),
{
    if i < 0 {
        proof {
            reveal_strlit("-");
        }
        out.append("-");
        append_nat_decimal(out, (-i) as u64);
        assert(final(out)@ =~= old(out)@ + decimal(i as int));
    } else {
        append_nat_decimal(out, i as u64);
    }
}


/// The ids joined by `_`, each as its decimal numeral.
pub open spec fn join_ids(ids: Seq<i32>) -> Seq<char>
    decreases ids.len(),
{
    if ids.len() == 0 {
        Seq::empty()
    } else if ids.len() == 1 {
        decimal(ids[0] as int)
    } else {
        join_ids(ids.drop_last()) + seq!['_'] + decimal(ids.last() as int)
    }
}

/// Writes the ids joined by `_`.
pub fn ids_text(ids: &Vec<i32>) -> (s: String)
    ensures
        s@ == join_ids(ids@),
{
    let mut s = String::new();
    for i in 0..ids.len()
        invariant
            s@ == join_ids(ids@.take(i as int)),
    {
        let ghost before = s@;
        proof {
            reveal_strlit("_");
        }
        if i > 0 {
            s.append("_");
        }
        append_decimal(&mut s, ids[i] as i64);
        assert(ids@.take(i + 1).drop_last() =~= ids@.take(i as int));
        assert(ids@.take(i + 1).last() == ids@[i as int]);
        if i > 0 {
            assert(s@ =~= before + seq!['_'] + decimal(ids@[i as int] as int));
        } else {
            assert(s@ =~= decimal(ids@[i as int] as int));
        }
    }
    assert(ids@.take(ids.len() as int) =~= ids@);
    s
}

/// The views of a vector of strings.
pub open spec fn strings_view(v: Seq<String>) -> Seq<Seq<char>> {
    v.map_values(|s: String| s@)
}

/// A copy of `ids` with `x` appended.
pub fn extended(ids: &Vec<i32>, x: i32) -> (res: Vec<i32>)
    ensures
        res@ == ids@.push(x),
{
    let mut res: Vec<i32> = Vec::new();
    for i in 0..ids.len()
        invariant
            res@ == ids@.take(i as int),
    {
        res.push(ids[i]);
        assert(ids@.take(i + 1) =~= ids@.take(i as int).push(ids@[i as int]));
    }
    res.push(x);
    assert(ids@.take(ids.len() as int) =~= ids@);
    res
}

/// A copy of `v` with `s` appended.
pub fn extended_strings(v: &Vec<String>, s: String) -> (res: Vec<String>)
    ensures
        strings_view(res@) == strings_view(v@).push(s@),
{
    let mut res: Vec<String> = Vec::new();
    for i in 0..v.len()
        invariant
            strings_view(res@) == strings_view(v@.take(i as int)),
    {
        res.push(v[i].clone());
        assert(strings_view(v@.take(i + 1)) =~= strings_view(v@.take(i as int)).push(v@[i as int]@));
    }
    res.push(s);
    assert(v@.take(v.len() as int) =~= v@);
    assert(strings_view(res@) =~= strings_view(v@).push(s@));
    res
}

/// The strings of `v` borrowed as string slices.
pub fn as_strs(v: &Vec<String>) -> (res: Vec<&str>)
    ensures
        strs_view(res@) == strings_view(v@),
{
    let mut res: Vec<&str> = Vec::new();
    for i in 0..v.len()
        invariant
            strs_view(res@) == strings_view(v@.take(i as int)),
    {
        res.push(v[i].as_str());
        assert(strings_view(v@.take(i + 1)) =~= strings_view(v@.take(i as int)).push(v@[i as int]@));
        assert(strs_view(res@) =~= strs_view(res@.drop_last()).push(res@.last()@));
    }
    assert(v@.take(v.len() as int) =~= v@);
    res
}

/// Each item followed by `, `, all run together.
pub open spec fn comma_terminated(items: Seq<Seq<char>>) -> Seq<char>
    decreases items.len(),
{
    if items.len() == 0 {
        Seq::empty()
    } else {
        comma_terminated(items.drop_last()) + items.last() + seq![',', ' ']
    }
}

/// The text `list_to_str` writes: `[`, each item followed by `, `, then `]`.
pub open spec fn list_text(items: Seq<Seq<char>>) -> Seq<char> {
    seq!['['] + comma_terminated(items) + seq![']']
}

/// The views of a vector of string slices.
pub open spec fn strs_view(v: Seq<&str>) -> Seq<Seq<char>> {
    v.map_values(|s: &str| s@)
}

/// Writes a list as `[a, b, ]`: every item, the last one too, is followed by
/// `, `.
pub fn list_to_str(input: &Vec<&str>) -> (res: String)
    ensures
        res@ == list_text(strs_view(input@)),
{
    let mut acc = String::new();
    for i in 0..input.len()
        invariant
            acc@ == comma_terminated(strs_view(input@.take(i as int))),
    {
        let ghost before = acc@;
        proof {
            reveal_strlit(", ");
        }
        acc.append(input[i]);
        acc.append(", ");
        assert(strs_view(input@.take(i + 1)).drop_last() =~= strs_view(input@.take(i as int)));
        assert(strs_view(input@.take(i + 1)).last() == input@[i as int]@);
        assert(acc@ =~= before + input@[i as int]@ + seq![',', ' ']);
    }
    assert(input@.take(input.len() as int) =~= input@);
    proof {
        reveal_strlit("[");
        reveal_strlit("]");
    }
    let mut res = String::new();
    res.append("[");
    res.append(acc.as_str());
    res.append("]");
    assert(res@ =~= list_text(strs_view(input@)));
    res
}

/// What `char::to_uppercase` yields for a character: its Unicode uppercase
/// mapping, one or more characters.
pub uninterp spec fn char_uppercase(c: char) -> Seq<char>;

/// Calls `char::to_uppercase` and collects the characters it yields.
/// Claimed: the result is `char_uppercase(c)`, a function of `c` alone; an
/// ASCII lowercase letter maps to its uppercase letter and any other ASCII
/// character to itself, as the Unicode case mapping that the documentation
/// refers to gives.  Nothing is claimed of other characters.
#[verifier::external_body]
fn char_to_uppercase(c: char) -> (s: String)
    ensures
        s@ == char_uppercase(c),
        'a' <= c <= 'z' ==> s@ == seq![((c as u32) - 32) as char],
        (c as u32) < 128 && !('a' <= c <= 'z') ==> s@ == seq![c],
{
    c.to_uppercase().collect::<String>()
}

/// The uppercase mapping of a character: for ASCII, the uppercase letter
/// of a lowercase one and any other character itself; beyond ASCII, what
/// `char::to_uppercase` yields.
pub open spec fn uppercase_of(c: char) -> Seq<char> {
    if 'a' <= c <= 'z' {
        seq![((c as u32) - 32) as char]
    } else if (c as u32) < 128 {
        seq![c]
    } else {
        char_uppercase(c)
    }
}

/// The text with its first character replaced by that character's uppercase
/// mapping.
pub open spec fn upper_text(s: Seq<char>) -> Seq<char> {
    if s.len() == 0 {
        Seq::empty()
    } else {
        uppercase_of(s[0]) + s.subrange(1, s.len() as int)
    }
}

/// Capitalises the first character.
pub fn upper(s: &str) -> (res: String)
    ensures
        res@ == upper_text(s@),
{
    let n = s.unicode_len();
    if n == 0 {
        String::new()
    } else {
        let mut res = char_to_uppercase(s.get_char(0));
        res.append(s.substring_char(1, n));
        res
    }
}

} // verus!
