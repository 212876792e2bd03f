//! The plain terminal prompt: what is made of the two lines it reads.

use vstd::prelude::*;
use crate::askpass::UserInfo;

verus! {

/// Whether `c` is white space: a character that Unicode classes as
/// `White_Space`.
pub open spec fn is_white_space(c: char) -> bool {
    ||| '\u{9}' <= c <= '\u{d}'
    ||| c == ' '
    ||| c == '\u{85}'
    ||| c == '\u{a0}'
    ||| c == '\u{1680}'
    ||| '\u{2000}' <= c <= '\u{200a}'
    ||| c == '\u{2028}'
    ||| c == '\u{2029}'
    ||| c == '\u{202f}'
    ||| c == '\u{205f}'
    ||| c == '\u{3000}'
}

/// `kept` is `line` without the white space at its end.
pub open spec fn is_trimmed(line: Seq<char>, kept: Seq<char>) -> bool {
    &&& kept.len() <= line.len()
    &&& kept == line.subrange(0, kept.len() as int)
    &&& kept.len() > 0 ==> !is_white_space(kept.last())
    &&& forall|i: int| kept.len() <= i < line.len() ==> is_white_space(#[trigger] line[i])
}

/// Whether `c` is white space.
pub fn white_space(c: char) -> (r: bool)
    ensures
        r == is_white_space(c),
{
    ('\u{9}' <= c && c <= '\u{d}') || c == ' ' || c == '\u{85}' || c == '\u{a0}' || c
        == '\u{1680}' || ('\u{2000}' <= c && c <= '\u{200a}') || c == '\u{2028}' || c
        == '\u{2029}' || c == '\u{202f}' || c == '\u{205f}' || c == '\u{3000}'
}

/// Makes credentials of the line read as the user name and of the secret:
/// the name loses the line break and any other white space at its end, the
/// secret is kept as it is.
pub fn simple_get_credentials(line: String, password: String) -> (r: UserInfo)
    ensures
        is_trimmed(line@, r.username@),
        r.password == password,
{
    let text = line.as_str();
    let mut kept: usize = text.unicode_len();
    while kept > 0 && white_space(text.get_char(kept - 1))
        invariant
            kept <= line@.len(),
            text@ == line@,
            forall|i: int| kept <= i < line@.len() ==> is_white_space(#[trigger] line@[i]),
        decreases kept,
    {
        kept = kept - 1;
    }
    let username = text.substring_char(0, kept).to_owned();
    UserInfo { username, password }
}

} // verus!
