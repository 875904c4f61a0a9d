use vstd::prelude::*;

verus! {

/// The decimal digit `d`, for `d < 10`.
pub open spec fn digit_char(d: nat) -> char {
    seq!['0', '1', '2', '3', '4', '5', '6', '7', '8', '9'][d as int]
}

/// `n` written in decimal, without leading zeros.
pub open spec fn decimal(n: nat) -> Seq<char>
    decreases n,
{
    if n < 10 {
        seq![digit_char(n)]
    } else {
        decimal(n / 10).push(digit_char(n % 10))
    }
}

/// The status line shown during play.
pub open spec fn status_line(score: nat, secs_left: nat) -> Seq<char> {
    seq!['S', 'c', 'o', 'r', 'e', ':', ' '] + decimal(score) + seq![
        ' ',
        ' ',
        ' ',
        ' ',
        ' ',
        'T',
        'i',
        'm',
        'e',
        'r',
        ':',
        ' ',
    ] + decimal(secs_left)
}

fn digit(d: u64) -> (c: char)
    requires
        d < 10,
    ensures
        c == digit_char(d as nat),
{
    let digits: [char; 10] = ['0', '1', '2', '3', '4', '5', '6', '7', '8', '9'];
    proof {
        assert(digits@ == seq!['0', '1', '2', '3', '4', '5', '6', '7', '8', '9']);
    }
    digits[d as usize]
}

/// Appends `n` in decimal to `out`.
pub fn push_decimal(out: &mut Vec<char>, n: u64)
    ensures
        final(out)@ == old(out)@ + decimal(n as nat),
    decreases n,
{
    if n >= 10 {
        push_decimal(out, n / 10);
    }
    out.push(digit(n % 10));
    proof {
        if n < 10 {
            assert(n % 10 == n);
        }
    }
}

/// Appends the characters of `part` to `out`.
pub fn push_chars(out: &mut Vec<char>, part: &[char])
    ensures
        final(out)@ == old(out)@ + part@,
{
    let mut i: usize = 0;
    while i < part.len()
        invariant
            0 <= i <= part@.len(),
            out@ == old(out)@ + part@.subrange(0, i as int),
        decreases part@.len() - i,
    {
        out.push(part[i]);
        i = i + 1;
        proof {
            assert(part@.subrange(0, i as int) == part@.subrange(0, i - 1).push(part@[i - 1]));
        }
    }
    proof {
        assert(part@.subrange(0, part@.len() as int) == part@);
    }
}

/// Relies on std's `FromIterator<char>` for `String`: collecting characters
/// gives the string of exactly those characters, in order.
#[verifier::external_body]
fn string_of(chars: &Vec<char>) -> (s: String)
    ensures
        s@ == chars@,
{
    chars.iter().collect()
}

/// The status line "Score: N     Timer: M" for a score and the seconds left.
pub fn status_text(score: u64, secs_left: u64) -> (s: String)
    ensures
        s@ == status_line(score as nat, secs_left as nat),
{
    let mut out: Vec<char> = Vec::new();
    let score_label: [char; 7] = ['S', 'c', 'o', 'r', 'e', ':', ' '];
    let timer_label: [char; 12] = [' ', ' ', ' ', ' ', ' ', 'T', 'i', 'm', 'e', 'r', ':', ' '];
    push_chars(&mut out, &score_label);
    push_decimal(&mut out, score);
    push_chars(&mut out, &timer_label);
    push_decimal(&mut out, secs_left);
    proof {
        assert(score_label@ == seq!['S', 'c', 'o', 'r', 'e', ':', ' ']);
        assert(timer_label@ == seq![' ', ' ', ' ', ' ', ' ', 'T', 'i', 'm', 'e', 'r', ':', ' ']);
    }
    string_of(&out)
}

} // verus!
