//! Labels and display strings: decimal numbers, the two score lines and the
//! names given to spawned enemies.

use vstd::prelude::*;
use vstd::string::*;

verus! {

/// The character that writes the digit `d`.
pub open spec fn digit_char(d: nat) -> char
    recommends
        d < 10,
{
    if d == 0 {
        '0'
    } else if d == 1 {
        '1'
    } else if d == 2 {
        '2'
    } else if d == 3 {
        '3'
    } else if d == 4 {
        '4'
    } else if d == 5 {
        '5'
    } else if d == 6 {
        '6'
    } else if d == 7 {
        '7'
    } else if d == 8 {
        '8'
    } else {
        '9'
    }
}

/// `n` written in base ten, most significant digit first, without padding.
pub open spec fn decimal(n: nat) -> Seq<char>
    decreases n,
{
    if n < 10 {
        seq![digit_char(n)]
    } else {
        decimal(n / 10).push(digit_char(n % 10))
    }
}

/// `n` written in base ten, with a leading minus sign when it is negative.
pub open spec fn signed_decimal(n: int) -> Seq<char> {
    if n < 0 {
        seq!['-'] + decimal((-n) as nat)
    } else {
        decimal(n as nat)
    }
}

/// What the score line shows for `score`.
pub open spec fn score_line(score: nat) -> Seq<char> {
    "Score: "@ + decimal(score)
}

/// What the high score line shows for `score`.
pub open spec fn high_score_line(score: nat) -> Seq<char> {
    "High Score: "@ + decimal(score)
}

/// The label of the enemy spawned when the counter stands at `index`.
pub open spec fn enemy_name(index: int) -> Seq<char> {
    "enemy"@ + signed_decimal(index)
}

/// The label under which the host keeps the player's sprite.
pub open spec fn player_name() -> Seq<char> {
    "player"@
}

/// A number written in base ten has at least one character, two from ten
/// on, and begins with a digit.
proof fn lemma_decimal_shape(n: nat)
    ensures
        decimal(n).len() >= 1,
        n >= 10 ==> decimal(n).len() >= 2,
        decimal(n)[0] != '-',
    decreases n,
{
    if n >= 10 {
        lemma_decimal_shape(n / 10);
    }
}

/// Different numbers are written differently.
pub proof fn decimal_is_injective(a: nat, b: nat)
    requires
        decimal(a) == decimal(b),
    ensures
        a == b,
    decreases a,
{
    lemma_decimal_shape(a);
    lemma_decimal_shape(b);
    if a >= 10 {
        let (head_a, head_b) = (decimal(a / 10), decimal(b / 10));
        let (last_a, last_b) = (digit_char(a % 10), digit_char(b % 10));
        assert(head_a.push(last_a).drop_last() =~= head_a);
        assert(head_b.push(last_b).drop_last() =~= head_b);
        assert(head_a.push(last_a).last() == last_a);
        assert(head_b.push(last_b).last() == last_b);
        decimal_is_injective(a / 10, b / 10);
    } else {
        assert(decimal(a)[0] == decimal(b)[0]);
    }
}

/// Every enemy gets a label of its own: the labels made for two different
/// values of the counter differ.
pub proof fn enemy_names_differ(first: int, second: int)
    requires
        first != second,
    ensures
        enemy_name(first) != enemy_name(second),
{
    let stem = "enemy"@;
    let (a, b) = (signed_decimal(first), signed_decimal(second));
    if enemy_name(first) == enemy_name(second) {
        assert((stem + a).subrange(stem.len() as int, (stem + a).len() as int) =~= a);
        assert((stem + b).subrange(stem.len() as int, (stem + b).len() as int) =~= b);
        assert(a == b);
        if first < 0 {
            lemma_decimal_shape((-first) as nat);
        } else {
            lemma_decimal_shape(first as nat);
        }
        if second < 0 {
            lemma_decimal_shape((-second) as nat);
        } else {
            lemma_decimal_shape(second as nat);
        }
        assert(a[0] == b[0]);
        if first < 0 {
            let (tail_a, tail_b) = (decimal((-first) as nat), decimal((-second) as nat));
            assert(a.subrange(1, a.len() as int) =~= tail_a);
            assert(b.subrange(1, b.len() as int) =~= tail_b);
            decimal_is_injective((-first) as nat, (-second) as nat);
        } else {
            decimal_is_injective(first as nat, second as nat);
        }
    }
}

fn digit_str(d: u64) -> (s: &'static str)
    requires
        d < 10,
    ensures
        s@ == seq![digit_char(d as nat)],
{
    proof {
        reveal_strlit("0");
        reveal_strlit("1");
        reveal_strlit("2");
        reveal_strlit("3");
        reveal_strlit("4");
        reveal_strlit("5");
        reveal_strlit("6");
        reveal_strlit("7");
        reveal_strlit("8");
        reveal_strlit("9");
    }
    let s = if d == 0 {
        "0"
    } else if d == 1 {
        "1"
    } else if d == 2 {
        "2"
    } else if d == 3 {
        "3"
    } else if d == 4 {
        "4"
    } else if d == 5 {
        "5"
    } else if d == 6 {
        "6"
    } else if d == 7 {
        "7"
    } else if d == 8 {
        "8"
    } else {
        "9"
    };
    assert(s@ =~= seq![digit_char(d as nat)]);
    s
}

/// Appends `n` in base ten to `out`.
fn push_decimal(out: &mut String, n: u64)
    ensures
        final(out)@ == old(out)@ + decimal(n as nat),
    decreases n,
{
    if n >= 10 {
        push_decimal(out, n / 10);
    }
    out.append(digit_str(n % 10));
    assert(final(out)@ =~= old(out)@ + decimal(n as nat)) by {
        if n >= 10 {
            assert(old(out)@ + decimal(n as nat) =~= (old(out)@ + decimal((n / 10) as nat)).push(
                digit_char((n % 10) as nat),
            ));
        }
    }
}

/// The text for the score line: `Score: ` and the score in base ten.
pub fn score_text(score: u32) -> (text: String)
    ensures
        text@ == score_line(score as nat),
{
    let mut text = String::from_str("Score: ");
    push_decimal(&mut text, score as u64);
    text
}

/// The text for the high score line: `High Score: ` and the score in base ten.
pub fn high_score_text(score: u32) -> (text: String)
    ensures
        text@ == high_score_line(score as nat),
{
    let mut text = String::from_str("High Score: ");
    push_decimal(&mut text, score as u64);
    text
}

/// The label for the enemy number `index`: `enemy` and the index in base ten.
pub fn enemy_label(index: i32) -> (label: String)
    ensures
        label@ == enemy_name(index as int),
{
    let mut label = String::from_str("enemy");
    let wide: i64 = index as i64;
    if wide < 0 {
        proof {
            reveal_strlit("-");
        }
        label.append("-");
        push_decimal(&mut label, (-wide) as u64);
        assert(label@ =~= enemy_name(index as int));
    } else {
        push_decimal(&mut label, wide as u64);
    }
    label
}

} // verus!
