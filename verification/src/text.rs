use vstd::prelude::*;

verus! {

/// The parts joined by single spaces: empty for no parts, the part itself
/// for one, and otherwise all parts in order with one space between each
/// neighbouring pair.
pub open spec fn joined(parts: Seq<Seq<char>>) -> Seq<char>
    decreases parts.len(),
{
    if parts.len() == 0 {
        Seq::empty()
    } else if parts.len() == 1 {
        parts[0]
    } else {
        joined(parts.drop_last()) + seq![' '] + parts.last()
    }
}

/// The text the window displays for the given command-line arguments:
/// the arguments joined by single spaces, or "Hello" when there are none.
pub open spec fn display_text_spec(args: Seq<Seq<char>>) -> Seq<char> {
    if args.len() == 0 {
        "Hello"@
    } else {
        joined(args)
    }
}

/// Build the display text from the command-line arguments.
pub fn display_text(args: &Vec<String>) -> (text: String)
    ensures
        text@ == display_text_spec(args@.map_values(|s: String| s@)),
        args@.len() == 0 ==> text@ == "Hello"@,
{
    if args.len() == 0 {
        return String::from_str("Hello");
    }
    let ghost parts = args@.map_values(|s: String| s@);
    let mut text = String::from_str(args[0].as_str());
    let mut i: usize = 1;
    proof {
        assert(parts.subrange(0, 1) =~= seq![parts[0]]);
    }
    while i < args.len()
        invariant
            1 <= i <= args@.len(),
            parts == args@.map_values(|s: String| s@),
            parts.len() == args@.len(),
            text@ == joined(parts.subrange(0, i as int)),
        decreases args@.len() - i,
    {
        text.append(" ");
        text.append(args[i].as_str());
        proof {
            reveal_strlit(" ");
            assert(" "@ =~= seq![' ']);
            assert(parts.subrange(0, i + 1).drop_last() =~= parts.subrange(0, i as int));
            assert(parts.subrange(0, i + 1).last() == parts[i as int]);
            assert(text@ =~= joined(parts.subrange(0, i + 1)));
        }
        i = i + 1;
    }
    proof {
        assert(parts.subrange(0, parts.len() as int) =~= parts);
    }
    text
}

/// What the platform's wide-text APIs are given: the UTF-16 code units of
/// the string.
pub uninterp spec fn utf16_of(s: Seq<char>) -> Seq<u16>;

/// Relies on str::encode_utf16: the UTF-16 code units of the string, a
/// function of its characters alone.
#[verifier::external_body]
fn encode_utf16_units(s: &str) -> (r: Vec<u16>)
    ensures
        r@ == utf16_of(s@),
{
    s.encode_utf16().collect()
}

/// The string as a NUL-terminated wide (UTF-16) buffer, as the platform's
/// text-drawing calls consume it.
pub fn to_wide(s: &str) -> (r: Vec<u16>)
    ensures
        r@ == utf16_of(s@).push(0u16),
{
    let mut r = encode_utf16_units(s);
    r.push(0u16);
    r
}

} // verus!
