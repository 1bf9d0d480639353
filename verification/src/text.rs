//! Small text helpers used when captions are built.

use vstd::prelude::*;
use vstd::string::StrSliceExecFns;
use vstd::string::StringExecFns;

verus! {

pub assume_specification[ String::push ](s: &mut String, c: char)
    ensures
        final(s)@ == old(s)@.push(c),
;

/// An ASCII lower-case letter raised to its upper case; any other character
/// unchanged.
pub open spec fn spec_ascii_upper(c: char) -> char {
    if 'a' <= c && c <= 'z' {
        ((c as int) - 32) as char
    } else {
        c
    }
}

/// `s` with its first character upper-cased (ASCII letters only), the rest
/// unchanged; empty input stays empty.
pub open spec fn spec_uppercase_first(s: Seq<char>) -> Seq<char> {
    if s.len() == 0 {
        s
    } else {
        seq![spec_ascii_upper(s[0])] + s.drop_first()
    }
}

fn ascii_upper(c: char) -> (r: char)
    ensures
        r == spec_ascii_upper(c),
{
    let x = c as u32;
    if 97 <= x && x <= 122 {
        ((x - 32) as u8) as char
    } else {
        c
    }
}

/// The redeemable link announced for an identifier: the path of the bot
/// `botname` with the identifier as the start argument.
pub fn deeplink_url(botname: &str, uid: &str) -> (r: String)
    ensures
        r@ == "t.me/"@ + botname@ + "/?start="@ + uid@,
{
    let mut out = String::from_str("t.me/");
    out.append(botname);
    out.append("/?start=");
    out.append(uid);
    out
}

/// The input with its first letter upper-cased, as used in the caption of an
/// announcement ("photo" becomes "Photo").
pub fn uppercase_first_letter(s: &str) -> (r: String)
    ensures
        r@ == spec_uppercase_first(s@),
{
    let n = s.unicode_len();
    if n == 0 {
        String::new()
    } else {
        let first = ascii_upper(s.get_char(0));
        let mut out = String::new();
        out.push(first);
        let rest = s.substring_char(1, n);
        out.append(rest);
        proof {
            assert(out@ =~= spec_uppercase_first(s@));
        }
        out
    }
}

} // verus!
