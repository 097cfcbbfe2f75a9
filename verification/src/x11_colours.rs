//! The colour-name collaborator: a fixed table of X11 colour names, a
//! case-insensitive lookup, and resolution of literal hex tokens.

use vstd::prelude::*;

use crate::text::{
    ci_eq_seq, eq_ignore_case, parse_hex_colour, spec_contains_seq, spec_parse_hex_colour,
    str_contains,
};

verus! {

/// The colour-name table: each name, in lower case, with its 24-bit value.
pub open spec fn spec_colour_table() -> Seq<(Seq<char>, u32)> {
    seq![
        ("black"@, 0x000000u32),
        ("blue"@, 0x0000ffu32),
        ("brown"@, 0xa52a2au32),
        ("cyan"@, 0x00ffffu32),
        ("gold"@, 0xffd700u32),
        ("gray"@, 0xbebebeu32),
        ("green"@, 0x00ff00u32),
        ("grey"@, 0xbebebeu32),
        ("indigo"@, 0x4b0082u32),
        ("magenta"@, 0xff00ffu32),
        ("maroon"@, 0xb03060u32),
        ("navy"@, 0x000080u32),
        ("olive"@, 0x808000u32),
        ("orange"@, 0xffa500u32),
        ("orchid"@, 0xda70d6u32),
        ("pink"@, 0xffc0cbu32),
        ("purple"@, 0xa020f0u32),
        ("red"@, 0xff0000u32),
        ("salmon"@, 0xfa8072u32),
        ("silver"@, 0xc0c0c0u32),
        ("teal"@, 0x008080u32),
        ("turquoise"@, 0x40e0d0u32),
        ("violet"@, 0xee82eeu32),
        ("white"@, 0xffffffu32),
        ("yellow"@, 0xffff00u32),
    ]
}

/// An executable list of name/value pairs stands for a table of
/// character sequences and values, pair by pair.
pub open spec fn pairs_match(v: Seq<(String, u32)>, s: Seq<(Seq<char>, u32)>) -> bool {
    v.len() == s.len() && (forall|i: int|
        0 <= i < v.len() ==> (#[trigger] v[i]).0@ == s[i].0 && v[i].1 == s[i].1)
}

/// The value the table gives a name, compared up to ASCII case.
pub open spec fn spec_lookup(table: Seq<(Seq<char>, u32)>, name: Seq<char>) -> Option<u32>
    decreases table.len(),
{
    if table.len() == 0 {
        None
    } else if ci_eq_seq(name, table[0].0) {
        Some(table[0].1)
    } else {
        spec_lookup(table.drop_first(), name)
    }
}

/// The colour a single token resolves to: a known name, else a literal
/// hex colour.
pub open spec fn spec_resolve_token(t: Seq<char>) -> Option<u32> {
    if spec_lookup(spec_colour_table(), t) is Some {
        spec_lookup(spec_colour_table(), t)
    } else {
        spec_parse_hex_colour(t)
    }
}

/// The colour an operand list resolves to: exactly one token, resolved
/// as a name or a hex literal; anything else fails.
pub open spec fn spec_get_x11_colour(args: Seq<Seq<char>>) -> Option<u32> {
    if args.len() == 1 {
        spec_resolve_token(args[0])
    } else {
        None
    }
}

/// Every value in the colour table is a 24-bit colour.
pub proof fn lemma_table_values_valid()
    ensures
        forall|i: int|
            0 <= i < spec_colour_table().len() ==> (#[trigger] spec_colour_table()[i]).1
                <= 0xffffff,
{
}

proof fn lemma_lookup_bound(table: Seq<(Seq<char>, u32)>, name: Seq<char>)
    requires
        forall|i: int| 0 <= i < table.len() ==> (#[trigger] table[i]).1 <= 0xffffff,
    ensures
        spec_lookup(table, name) matches Some(c) ==> c <= 0xffffff,
    decreases table.len(),
{
    if table.len() > 0 {
        assert(forall|i: int|
            0 <= i < table.drop_first().len() ==> (#[trigger] table.drop_first()[i]).1
                <= 0xffffff);
        lemma_lookup_bound(table.drop_first(), name);
    }
}

/// Whatever a token resolves to is a 24-bit colour.
pub proof fn lemma_resolve_token_valid(t: Seq<char>)
    ensures
        spec_resolve_token(t) matches Some(c) ==> c <= 0xffffff,
{
    lemma_table_values_valid();
    lemma_lookup_bound(spec_colour_table(), t);
    crate::text::lemma_hex_bound_of_parse(t);
}

fn colour_table() -> (r: Vec<(String, u32)>)
    ensures
        pairs_match(r@, spec_colour_table()),
{
    let mut v: Vec<(String, u32)> = Vec::new();
    v.push(("black".to_owned(), 0x000000u32));
    v.push(("blue".to_owned(), 0x0000ffu32));
    v.push(("brown".to_owned(), 0xa52a2au32));
    v.push(("cyan".to_owned(), 0x00ffffu32));
    v.push(("gold".to_owned(), 0xffd700u32));
    v.push(("gray".to_owned(), 0xbebebeu32));
    v.push(("green".to_owned(), 0x00ff00u32));
    v.push(("grey".to_owned(), 0xbebebeu32));
    v.push(("indigo".to_owned(), 0x4b0082u32));
    v.push(("magenta".to_owned(), 0xff00ffu32));
    v.push(("maroon".to_owned(), 0xb03060u32));
    v.push(("navy".to_owned(), 0x000080u32));
    v.push(("olive".to_owned(), 0x808000u32));
    v.push(("orange".to_owned(), 0xffa500u32));
    v.push(("orchid".to_owned(), 0xda70d6u32));
    v.push(("pink".to_owned(), 0xffc0cbu32));
    v.push(("purple".to_owned(), 0xa020f0u32));
    v.push(("red".to_owned(), 0xff0000u32));
    v.push(("salmon".to_owned(), 0xfa8072u32));
    v.push(("silver".to_owned(), 0xc0c0c0u32));
    v.push(("teal".to_owned(), 0x008080u32));
    v.push(("turquoise".to_owned(), 0x40e0d0u32));
    v.push(("violet".to_owned(), 0xee82eeu32));
    v.push(("white".to_owned(), 0xffffffu32));
    v.push(("yellow".to_owned(), 0xffff00u32));
    v
}

/// Look a colour name up in the table, ignoring ASCII case.
pub fn colour_value(name: &str) -> (r: Option<u32>)
    ensures
        r == spec_lookup(spec_colour_table(), name@),
{
    let table = colour_table();
    let ghost spec_table = spec_colour_table();
    proof {
        assert(spec_table.skip(0) =~= spec_table);
    }
    let mut i: usize = 0;
    while i < table.len()
        invariant
            pairs_match(table@, spec_table),
            spec_table == spec_colour_table(),
            i <= table@.len(),
            spec_lookup(spec_table, name@) == spec_lookup(spec_table.skip(i as int), name@),
        decreases table@.len() - i,
    {
        proof {
            assert(spec_table.skip(i as int)[0] == spec_table[i as int]);
            assert(spec_table.skip(i as int).drop_first() =~= spec_table.skip(i as int + 1));
        }
        let pair = &table[i];
        if eq_ignore_case(name, pair.0.as_str()) {
            return Some(pair.1);
        }
        i = i + 1;
    }
    proof {
        assert(spec_table.skip(i as int) =~= Seq::<(Seq<char>, u32)>::empty());
    }
    None
}

/// Resolve one token: a known colour name, else a literal hex colour.
pub fn resolve_token(token: &str) -> (r: Option<u32>)
    ensures
        r == spec_resolve_token(token@),
        r matches Some(c) ==> c <= 0xffffff,
{
    proof {
        lemma_resolve_token_valid(token@);
    }
    match colour_value(token) {
        Some(c) => Some(c),
        None => parse_hex_colour(token),
    }
}

/// Resolve an operand list to a colour: exactly one token, a known name
/// or a hex literal.
pub fn get_x11_colour(args: &[String]) -> (r: Option<u32>)
    ensures
        r == spec_get_x11_colour(args.deep_view()),
        r matches Some(c) ==> c <= 0xffffff,
{
    if args.len() == 1 {
        let r = resolve_token(args[0].as_str());
        assert(args.deep_view()[0] == args[0]@);
        r
    } else {
        None
    }
}

/// The names the table knows, in table order.
pub fn x11_colour_names() -> (r: Vec<String>)
    ensures
        r@.len() == spec_colour_table().len(),
        forall|i: int| 0 <= i < r@.len() ==> (#[trigger] r@[i])@ == spec_colour_table()[i].0,
{
    let table = colour_table();
    let mut names: Vec<String> = Vec::new();
    let mut i: usize = 0;
    while i < table.len()
        invariant
            pairs_match(table@, spec_colour_table()),
            i <= table@.len(),
            names@.len() == i,
            forall|j: int| 0 <= j < i ==> (#[trigger] names@[j])@ == spec_colour_table()[j].0,
        decreases table@.len() - i,
    {
        let name = table[i].0.clone();
        names.push(name);
        i = i + 1;
    }
    names
}

/// The table entries a listing shows: all of them without a filter,
/// else those whose name contains the first operand.
pub open spec fn spec_filter_names(table: Seq<(Seq<char>, u32)>, needle: Seq<char>) -> Seq<
    (Seq<char>, u32),
>
    decreases table.len(),
{
    if table.len() == 0 {
        table
    } else {
        let rest = spec_filter_names(table.drop_first(), needle);
        if spec_contains_seq(table[0].0, needle) {
            seq![table[0]] + rest
        } else {
            rest
        }
    }
}

/// What listing the colours shows for an operand list.
pub open spec fn spec_list_colours(args: Seq<Seq<char>>) -> Seq<(Seq<char>, u32)> {
    if args.len() == 0 {
        spec_colour_table()
    } else {
        spec_filter_names(spec_colour_table(), args[0])
    }
}

proof fn lemma_filter_push(table: Seq<(Seq<char>, u32)>, x: (Seq<char>, u32), needle: Seq<char>)
    ensures
        spec_filter_names(table.push(x), needle) == spec_filter_names(table, needle) + (
        if spec_contains_seq(x.0, needle) {
            seq![x]
        } else {
            Seq::<(Seq<char>, u32)>::empty()
        }),
    decreases table.len(),
{
    reveal_with_fuel(spec_filter_names, 3);
    let tail = if spec_contains_seq(x.0, needle) {
        seq![x]
    } else {
        Seq::<(Seq<char>, u32)>::empty()
    };
    if table.len() == 0 {
        assert(table.push(x)[0] == x);
        assert(table.push(x).drop_first() =~= Seq::<(Seq<char>, u32)>::empty());
        assert(spec_filter_names(table.push(x), needle) =~= spec_filter_names(table, needle)
            + tail);
    } else {
        assert(table.push(x)[0] == table[0]);
        assert(table.push(x).drop_first() =~= table.drop_first().push(x));
        lemma_filter_push(table.drop_first(), x, needle);
        let rest = spec_filter_names(table.drop_first(), needle);
        assert(spec_filter_names(table.push(x).drop_first(), needle) == rest + tail);
        if spec_contains_seq(table[0].0, needle) {
            assert(spec_filter_names(table.push(x), needle) == seq![table[0]] + (rest + tail));
            assert(spec_filter_names(table, needle) == seq![table[0]] + rest);
            assert(seq![table[0]] + (rest + tail) =~= (seq![table[0]] + rest) + tail);
        } else {
            assert(spec_filter_names(table.push(x), needle) == rest + tail);
        }
    }
}

/// List the colour names and values, optionally filtered to names that
/// contain the first operand.
pub fn list_colours(args: &[String]) -> (r: Vec<(String, u32)>)
    ensures
        pairs_match(r@, spec_list_colours(args.deep_view())),
{
    let table = colour_table();
    if args.len() == 0 {
        return table;
    }
    let needle: &str = args[0].as_str();
    assert(args.deep_view()[0] == args[0]@);
    let mut out: Vec<(String, u32)> = Vec::new();
    let ghost spec_table = spec_colour_table();
    let mut i: usize = 0;
    while i < table.len()
        invariant
            pairs_match(table@, spec_table),
            spec_table == spec_colour_table(),
            needle@ == args.deep_view()[0],
            args.deep_view().len() > 0,
            i <= table@.len(),
            pairs_match(out@, spec_filter_names(spec_table.take(i as int), needle@)),
        decreases table@.len() - i,
    {
        proof {
            assert(spec_table.take(i as int).push(spec_table[i as int]) =~= spec_table.take(
                i as int + 1,
            ));
            lemma_filter_push(spec_table.take(i as int), spec_table[i as int], needle@);
        }
        let pair = &table[i];
        if str_contains(pair.0.as_str(), needle) {
            let entry = (pair.0.clone(), pair.1);
            out.push(entry);
        }
        i = i + 1;
    }
    proof {
        assert(spec_table.take(table@.len() as int) =~= spec_table);
    }
    out
}

} // verus!
