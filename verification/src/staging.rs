//! Staging names: where an upload is written before it is published.
//!
//! An upload never writes to the file it replaces. Its bytes go to a staging
//! file beside it, and only a complete staging file is renamed over the
//! target. The staging file's name is made of the target's name, the upload's
//! ticket in decimal, and a fixed suffix, as in `avatar.vrm.17.part`: a plain
//! name that differs from the target, is no model name, and is shared with no
//! upload to the same target that holds another ticket.

use crate::name::{has_model_suffix, is_plain_name, MODEL_SUFFIX};
use vstd::prelude::*;

verus! {

/// The suffix that ends every staging name.
pub const STAGING_SUFFIX: &'static str = ".part";

/// The character for a decimal digit.
pub open spec fn digit_char(d: nat) -> char
    recommends
        d < 10,
{
    if d == 0 {
        '0'
    } else if d == 1 {
        '1'
    } else if d == 2 {
        '2'
    } else if d == 3 {
        '3'
    } else if d == 4 {
        '4'
    } else if d == 5 {
        '5'
    } else if d == 6 {
        '6'
    } else if d == 7 {
        '7'
    } else if d == 8 {
        '8'
    } else {
        '9'
    }
}

/// The digit that a character stands for; 0 for a character that is none.
pub open spec fn digit_value(c: char) -> nat {
    if c == '1' {
        1
    } else if c == '2' {
        2
    } else if c == '3' {
        3
    } else if c == '4' {
        4
    } else if c == '5' {
        5
    } else if c == '6' {
        6
    } else if c == '7' {
        7
    } else if c == '8' {
        8
    } else if c == '9' {
        9
    } else {
        0
    }
}

/// A number in decimal, without leading zeros.
pub open spec fn decimal(n: nat) -> Seq<char>
    decreases n,
{
    if n < 10 {
        seq![digit_char(n)]
    } else {
        decimal(n / 10).push(digit_char(n % 10))
    }
}

/// The number that a sequence of decimal digits stands for.
pub open spec fn decimal_value(digits: Seq<char>) -> nat
    decreases digits.len(),
{
    if digits.len() == 0 {
        0
    } else {
        10 * decimal_value(digits.drop_last()) + digit_value(digits.last())
    }
}

/// The name of the staging file for an upload to `target` under `ticket`.
pub open spec fn staging_name(target: Seq<char>, ticket: nat) -> Seq<char> {
    target + seq!['.'] + decimal(ticket) + STAGING_SUFFIX@
}

/// A number in decimal is made of digits only, at least one of them, and
/// reads back as the number.
pub proof fn lemma_decimal(n: nat)
    ensures
        decimal(n).len() > 0,
        forall|i: int| 0 <= i < decimal(n).len() ==> '0' <= #[trigger] decimal(n)[i] <= '9',
        decimal_value(decimal(n)) == n,
    decreases n,
{
    if n < 10 {
        let digits = decimal(n);
        assert(digits.drop_last().len() == 0);
        assert(decimal_value(digits.drop_last()) == 0);
    } else {
        lemma_decimal(n / 10);
        let digits = decimal(n);
        assert(digits.drop_last() == decimal(n / 10));
    }
}

/// A staging name is a plain name wherever its target is one. It is not the
/// target, and it is no model name, so no listing of models ever shows it.
pub proof fn lemma_staging_name_is_plain(target: Seq<char>, ticket: nat)
    requires
        is_plain_name(target),
    ensures
        is_plain_name(staging_name(target, ticket)),
        staging_name(target, ticket) != target,
        !has_model_suffix(staging_name(target, ticket)),
{
    reveal_strlit(".part");
    reveal_strlit(".vrm");
    lemma_decimal(ticket);
    let digits = decimal(ticket);
    let name = staging_name(target, ticket);
    assert(name.len() == target.len() + 1 + digits.len() + 5);
    assert forall|i: int| 0 <= i < name.len() implies name[i] != '/' by {
        if i < target.len() {
            assert(name[i] == target[i]);
        } else if i == target.len() {
            assert(name[i] == '.');
        } else if i < target.len() + 1 + digits.len() {
            assert(name[i] == digits[i - target.len() - 1]);
        } else {
            assert(name[i] == STAGING_SUFFIX@[i - target.len() - 1 - digits.len()]);
        }
    }
    assert(name[name.len() - 1] == STAGING_SUFFIX@[4]);
    if has_model_suffix(name) {
        let tail = name.subrange(name.len() - 4, name.len() as int);
        assert(tail[3] == name[name.len() - 1]);
        assert(MODEL_SUFFIX@[3] == 'm');
    }
}

/// Two uploads to one target that hold different tickets stage in different
/// files.
pub proof fn lemma_staging_names_differ(target: Seq<char>, a: nat, b: nat)
    requires
        a != b,
    ensures
        staging_name(target, a) != staging_name(target, b),
{
    lemma_decimal(a);
    lemma_decimal(b);
    let x = staging_name(target, a);
    let y = staging_name(target, b);
    if x == y {
        assert(x.len() == target.len() + 1 + decimal(a).len() + STAGING_SUFFIX@.len());
        assert(y.len() == target.len() + 1 + decimal(b).len() + STAGING_SUFFIX@.len());
        assert forall|i: int| 0 <= i < decimal(a).len() implies decimal(a)[i] == decimal(b)[i] by {
            assert(x[target.len() + 1 + i] == decimal(a)[i]);
            assert(y[target.len() + 1 + i] == decimal(b)[i]);
        }
        assert(decimal(a) =~= decimal(b));
    }
}

/// The text of one decimal digit.
fn digit_text(d: u64) -> (text: &'static str)
    requires
        d < 10,
    ensures
        text@ == seq![digit_char(d as nat)],
{
    proof {
        reveal_strlit("0");
        reveal_strlit("1");
        reveal_strlit("2");
        reveal_strlit("3");
        reveal_strlit("4");
        reveal_strlit("5");
        reveal_strlit("6");
        reveal_strlit("7");
        reveal_strlit("8");
        reveal_strlit("9");
    }
    let text = if d == 0 {
        "0"
    } else if d == 1 {
        "1"
    } else if d == 2 {
        "2"
    } else if d == 3 {
        "3"
    } else if d == 4 {
        "4"
    } else if d == 5 {
        "5"
    } else if d == 6 {
        "6"
    } else if d == 7 {
        "7"
    } else if d == 8 {
        "8"
    } else {
        "9"
    };
    assert(text@ =~= seq![digit_char(d as nat)]);
    text
}

/// Writes a number in decimal behind what `out` holds.
fn append_decimal(out: &mut String, n: u64)
    ensures
        final(out)@ == old(out)@ + decimal(n as nat),
    decreases n,
{
    if n >= 10 {
        append_decimal(out, n / 10);
    }
    out.append(digit_text(n % 10));
    assert(final(out)@ =~= old(out)@ + decimal(n as nat));
}

/// The name of the staging file for an upload to `target` under `ticket`.
pub fn staging_file(target: &str, ticket: u64) -> (name: String)
    ensures
        name@ == staging_name(target@, ticket as nat),
{
    let mut name = target.to_owned();
    name.append(".");
    append_decimal(&mut name, ticket);
    name.append(STAGING_SUFFIX);
    proof {
        reveal_strlit(".");
        assert("."@ =~= seq!['.']);
    }
    name
}

} // verus!
