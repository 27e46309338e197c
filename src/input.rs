use vstd::prelude::*;

use crate::game::RelativeSide;

verus! {

/// What `str::trim` leaves of a text.
pub uninterp spec fn trimmed_of(s: Seq<char>) -> Seq<char>;

/// Relies on str::trim: the text without its leading and trailing white
/// space, which depends on the characters alone.
#[verifier::external_body]
fn trim_text(s: &str) -> (r: String)
    ensures
        r@ == trimmed_of(s@),
{
    s.trim().to_string()
}

/// The rally outcome a token names: "0", "serv" or "serving" for the
/// serving side, "1", "rec" or "receiving" for the receiving side.
pub open spec fn side_of(t: Seq<char>) -> Option<RelativeSide> {
    if t == seq!['0'] || t == seq!['s', 'e', 'r', 'v'] || t == seq![
        's',
        'e',
        'r',
        'v',
        'i',
        'n',
        'g',
    ] {
        Some(RelativeSide::Serving)
    } else if t == seq!['1'] || t == seq!['r', 'e', 'c'] || t == seq![
        'r',
        'e',
        'c',
        'e',
        'i',
        'v',
        'i',
        'n',
        'g',
    ] {
        Some(RelativeSide::Receiving)
    } else {
        None
    }
}

fn same_text(a: &str, b: &str) -> (r: bool)
    ensures
        r == (a@ == b@),
{
    a.to_owned() == b.to_owned()
}

/// The rally outcome an already trimmed token names, if any.
pub fn side_of_token(token: &str) -> (r: Option<RelativeSide>)
    ensures
        r == side_of(token@),
{
    proof {
        reveal_strlit("0");
        reveal_strlit("serv");
        reveal_strlit("serving");
        reveal_strlit("1");
        reveal_strlit("rec");
        reveal_strlit("receiving");
        assert("0"@ =~= seq!['0']);
        assert("serv"@ =~= seq!['s', 'e', 'r', 'v']);
        assert("serving"@ =~= seq!['s', 'e', 'r', 'v', 'i', 'n', 'g']);
        assert("1"@ =~= seq!['1']);
        assert("rec"@ =~= seq!['r', 'e', 'c']);
        assert("receiving"@ =~= seq!['r', 'e', 'c', 'e', 'i', 'v', 'i', 'n', 'g']);
    }
    if same_text(token, "0") || same_text(token, "serv") || same_text(token, "serving") {
        Some(RelativeSide::Serving)
    } else if same_text(token, "1") || same_text(token, "rec") || same_text(token, "receiving") {
        Some(RelativeSide::Receiving)
    } else {
        None
    }
}

/// The rally outcome a line of input names, ignoring surrounding white space.
pub fn is_valid_input(input: &str) -> (r: Option<RelativeSide>)
    ensures
        r == side_of(trimmed_of(input@)),
{
    let token = trim_text(input);
    side_of_token(token.as_str())
}

} // verus!
