use vstd::prelude::*;
use vstd::string::StringExecFns;

use crate::metadata::{VideoInfo, VideoInfoView};

verus! {

/// Characters that cannot stand in a file name component: the path separators
/// `/` and `\` and the NUL character.
pub open spec fn is_unsafe_char(c: char) -> bool {
    c == '/' || c == '\\' || c == '\0'
}

/// A name component with every unsafe character replaced by `_`; every other
/// character is kept as it is.
pub open spec fn sanitized(s: Seq<char>) -> Seq<char> {
    s.map_values(|c: char| if is_unsafe_char(c) { '_' } else { c })
}

/// The separator between the parts of a directory name.
pub open spec fn separator() -> Seq<char> {
    seq![' ', '-', ' ']
}

/// The destination directory of an item: `<owner> - <group title> - <title>`
/// where the group title differs from the title, `<owner> - <title>` otherwise.
pub open spec fn dir_name_of(v: VideoInfoView) -> Seq<char> {
    if v.group_title != v.title {
        sanitized(v.uname) + separator() + sanitized(v.group_title) + separator() + sanitized(
            v.title,
        )
    } else {
        sanitized(v.uname) + separator() + sanitized(v.title)
    }
}

pub open spec fn digit_char(d: nat) -> char {
    seq!['0', '1', '2', '3', '4', '5', '6', '7', '8', '9'][d as int]
}

/// The decimal digits of `n`, without leading zeros.
pub open spec fn decimal(n: nat) -> Seq<char>
    decreases n,
{
    if n < 10 {
        seq![digit_char(n)]
    } else {
        decimal(n / 10).push(digit_char(n % 10))
    }
}

/// The name of the merged file of an item: its identifier with the container's extension.
pub open spec fn file_name_of(item_id: u64) -> Seq<char> {
    decimal(item_id as nat) + seq!['.', 'm', 'p', '4']
}

/// Replaces each character that cannot stand in a file name component by `_`.
pub fn sanitize_component(s: &str) -> (r: String)
    ensures
        r@ == sanitized(s@),
{
    let n = s.unicode_len();
    let mut out = String::new();
    let mut i: usize = 0;
    while i < n
        invariant
            n == s@.len(),
            i <= n,
            out@ == sanitized(s@.subrange(0, i as int)),
        decreases n - i,
    {
        let c = s.get_char(i);
        if c == '/' || c == '\\' || c == '\0' {
            proof {
                reveal_strlit("_");
            }
            out.append("_");
        } else {
            out.append(s.substring_char(i, i + 1));
        }
        assert(sanitized(s@.subrange(0, i + 1)) =~= sanitized(s@.subrange(0, i as int)).push(
            sanitized(s@)[i as int],
        ));
        i = i + 1;
    }
    assert(s@.subrange(0, n as int) =~= s@);
    out
}

/// Name of the directory that receives an item's output.
pub fn target_dir_name(info: &VideoInfo) -> (r: String)
    ensures
        r@ == dir_name_of(info@),
{
    let mut name = sanitize_component(info.uname.as_str());
    proof {
        reveal_strlit(" - ");
    }
    if info.group_title != info.title {
        name.append(" - ");
        name.append(sanitize_component(info.group_title.as_str()).as_str());
    }
    name.append(" - ");
    name.append(sanitize_component(info.title.as_str()).as_str());
    assert(" - "@ =~= separator());
    assert(name@ =~= dir_name_of(info@));
    name
}

/// Appends the decimal digits of `n`.
pub(crate) fn push_decimal(s: &mut String, n: u64)
    ensures
        final(s)@ == old(s)@ + decimal(n as nat),
    decreases n,
{
    proof {
        reveal_strlit("0123456789");
    }
    if n >= 10 {
        push_decimal(s, n / 10);
    }
    let d: usize = (n % 10) as usize;
    s.append("0123456789".substring_char(d, d + 1));
    proof {
        let digits = seq!['0', '1', '2', '3', '4', '5', '6', '7', '8', '9'];
        assert("0123456789"@ =~= digits);
        assert("0123456789"@.subrange(d as int, d + 1) =~= seq![digit_char(d as nat)]);
        assert(s@ =~= old(s)@ + decimal(n as nat));
    }
}

/// Name of an item's merged output file: `<item id>.mp4`.
pub fn final_file_name(item_id: u64) -> (r: String)
    ensures
        r@ == file_name_of(item_id),
{
    let mut name = String::new();
    push_decimal(&mut name, item_id);
    proof {
        reveal_strlit(".mp4");
    }
    name.append(".mp4");
    assert(".mp4"@ =~= seq!['.', 'm', 'p', '4']);
    assert(name@ =~= file_name_of(item_id));
    name
}

} // verus!
