//! Text helpers the engine's messages and paths are built from: decimal
//! rendering of status codes and joining a directory with a file name.

use vstd::prelude::*;
use vstd::string::*;

verus! {

/// The decimal digit character for `d`, which must be below ten.
pub open spec fn digit_char(d: nat) -> char {
    if d == 0 {
        '0'
    } else if d == 1 {
        '1'
    } else if d == 2 {
        '2'
    } else if d == 3 {
        '3'
    } else if d == 4 {
        '4'
    } else if d == 5 {
        '5'
    } else if d == 6 {
        '6'
    } else if d == 7 {
        '7'
    } else if d == 8 {
        '8'
    } else {
        '9'
    }
}

/// The usual decimal rendering of `n`, most significant digit first,
/// with no leading zeros (a lone zero for `n == 0`).
pub open spec fn decimal_of(n: nat) -> Seq<char>
    decreases n,
{
    if n < 10 {
        seq![digit_char(n)]
    } else {
        decimal_of(n / 10) + seq![digit_char(n % 10)]
    }
}

/// The string slice holding exactly the digit `d`.
fn digit_str(d: u16) -> (r: &'static str)
    requires
        d < 10,
    ensures
        r@ == seq![digit_char(d as nat)],
{
    proof {
        reveal_strlit("0");
        reveal_strlit("1");
        reveal_strlit("2");
        reveal_strlit("3");
        reveal_strlit("4");
        reveal_strlit("5");
        reveal_strlit("6");
        reveal_strlit("7");
        reveal_strlit("8");
        reveal_strlit("9");
    }
    let r = match d {
        0 => "0",
        1 => "1",
        2 => "2",
        3 => "3",
        4 => "4",
        5 => "5",
        6 => "6",
        7 => "7",
        8 => "8",
        _ => "9",
    };
    proof {
        assert(r@ =~= seq![digit_char(d as nat)]);
    }
    r
}

/// Appends the decimal rendering of `n` to `s`.
pub fn push_decimal(s: &mut String, n: u16)
    ensures
        final(s)@ == old(s)@ + decimal_of(n as nat),
    decreases n,
{
    if n >= 10 {
        push_decimal(s, n / 10);
        s.append(digit_str(n % 10));
        proof {
            assert(final(s)@ =~= old(s)@ + decimal_of(n as nat));
        }
    } else {
        s.append(digit_str(n));
    }
}

/// The destination path a directory and a plain file-name segment form:
/// the two joined with a single separator, none doubled when the
/// directory already ends in one, and the name alone when the directory
/// is empty.
pub open spec fn joined_path(dir: Seq<char>, name: Seq<char>) -> Seq<char> {
    if dir.len() == 0 {
        name
    } else if dir.last() == '/' {
        dir + name
    } else {
        dir + seq!['/'] + name
    }
}

/// The parent directory of a path: everything before the last
/// separator, or the empty path when there is none.
pub open spec fn parent_of(path: Seq<char>) -> Seq<char>
    decreases path.len(),
{
    if path.len() == 0 {
        Seq::<char>::empty()
    } else if path.last() == '/' {
        path.drop_last()
    } else {
        parent_of(path.drop_last())
    }
}

/// Law: for a plain file-name segment, the parent of the full
/// destination path is exactly the destination directory — so ensuring
/// that directory exists is ensuring the parent of the path being
/// written.
pub proof fn lemma_parent_of_join(dir: Seq<char>, name: Seq<char>)
    requires
        dir.len() > 0,
        dir.last() != '/',
        forall|j: int| 0 <= j < name.len() ==> name[j] != '/',
    ensures
        parent_of(joined_path(dir, name)) == dir,
    decreases name.len(),
{
    if name.len() == 0 {
        assert(joined_path(dir, name) =~= dir + seq!['/']);
        assert((dir + seq!['/']).drop_last() =~= dir);
    } else {
        let p = joined_path(dir, name);
        assert(p.last() == name.last());
        assert(p.drop_last() =~= joined_path(dir, name.drop_last()));
        lemma_parent_of_join(dir, name.drop_last());
    }
}

/// Joins a destination directory and a file name into the full
/// destination path.
pub fn join_path(dir: &str, name: &str) -> (r: String)
    ensures
        r@ == joined_path(dir@, name@),
{
    let len = dir.unicode_len();
    if len == 0 {
        String::from_str(name)
    } else if dir.get_char(len - 1) == '/' {
        String::from_str(dir).concat(name)
    } else {
        let r = String::from_str(dir).concat("/").concat(name);
        proof {
            reveal_strlit("/");
            assert(r@ =~= joined_path(dir@, name@));
        }
        r
    }
}

} // verus!
