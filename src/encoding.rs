use vstd::prelude::*;

verus! {

/// The digit of standard base64 for a six-bit value.
pub open spec fn base64_digit(v: int) -> char {
    if v < 26 {
        (65 + v) as char
    } else if v < 52 {
        (97 + (v - 26)) as char
    } else if v < 62 {
        (48 + (v - 52)) as char
    } else if v == 62 {
        '+'
    } else {
        '/'
    }
}

/// The byte at `i`, or zero past the end.
pub open spec fn byte_or_zero(b: Seq<u8>, i: int) -> int {
    if 0 <= i < b.len() {
        b[i] as int
    } else {
        0
    }
}

/// The six-bit value that the `k`-th output digit carries: digits come in groups of
/// four, each group spelling three input bytes.
pub open spec fn sextet(b: Seq<u8>, k: int) -> int {
    let g = k / 4;
    let b0 = byte_or_zero(b, 3 * g);
    let b1 = byte_or_zero(b, 3 * g + 1);
    let b2 = byte_or_zero(b, 3 * g + 2);
    if k % 4 == 0 {
        b0 / 4
    } else if k % 4 == 1 {
        (b0 % 4) * 16 + b1 / 16
    } else if k % 4 == 2 {
        (b1 % 16) * 4 + b2 / 64
    } else {
        b2 % 64
    }
}

/// Number of digits of the unpadded encoding of `n` bytes.
pub open spec fn encoded_len(n: nat) -> nat {
    (4 * n + 2) / 3
}

/// Unpadded standard base64 of a byte sequence.
pub open spec fn base64_spec(b: Seq<u8>) -> Seq<char> {
    Seq::new(encoded_len(b.len()), |k: int| base64_digit(sextet(b, k)))
}

/// Relies on String::push: the character is appended at the end.
#[verifier::external_body]
fn push_char(s: &mut String, c: char)
    ensures
        final(s)@ == old(s)@.push(c),
{
    s.push(c)
}

fn digit(v: u8) -> (c: char)
    requires
        v < 64,
    ensures
        c == base64_digit(v as int),
{
    if v < 26 {
        (65 + v) as char
    } else if v < 52 {
        (97 + (v - 26)) as char
    } else if v < 62 {
        (48 + (v - 52)) as char
    } else if v == 62 {
        '+'
    } else {
        '/'
    }
}

proof fn lemma_group_position(q: int, p: int)
    requires
        q >= 0,
        0 <= p < 4,
    ensures
        (4 * q + p) / 4 == q,
        (4 * q + p) % 4 == p,
{
    assert((4 * q + p) / 4 == q) by (nonlinear_arith)
        requires
            q >= 0,
            0 <= p < 4,
    ;
    assert((4 * q + p) % 4 == p) by (nonlinear_arith)
        requires
            q >= 0,
            0 <= p < 4,
    ;
}

proof fn lemma_encoded_len(q: int, r: int)
    requires
        q >= 0,
        0 <= r < 3,
    ensures
        encoded_len((3 * q + r) as nat) == 4 * q + if r == 0 {
            0int
        } else {
            r + 1
        },
{
    assert((4 * (3 * q + r) + 2) / 3 == 4 * q + (4 * r + 2) / 3) by (nonlinear_arith)
        requires
            q >= 0,
            0 <= r < 3,
    ;
}

/// Unpadded standard base64 of `input`: each three bytes become four digits, and a
/// final one or two bytes become two or three digits.
pub fn encode(input: &[u8]) -> (r: String)
    ensures
        r@ == base64_spec(input@),
{
    let n = input.len();
    let mut out = String::new();
    let mut i: usize = 0;
    let ghost mut q: int = 0;
    while n - i >= 3
        invariant
            n == input@.len(),
            i <= n,
            i == 3 * q,
            q >= 0,
            out@.len() == 4 * q,
            forall|k: int| 0 <= k < out@.len() ==> out@[k] == base64_digit(#[trigger] sextet(input@, k)),
        decreases n - i,
    {
        let b0 = input[i];
        let b1 = input[i + 1];
        let b2 = input[i + 2];
        proof {
            lemma_group_position(q, 0);
            lemma_group_position(q, 1);
            lemma_group_position(q, 2);
            lemma_group_position(q, 3);
        }
        let ghost before = out@;
        push_char(&mut out, digit(b0 / 4));
        push_char(&mut out, digit((b0 % 4) * 16 + b1 / 16));
        push_char(&mut out, digit((b1 % 16) * 4 + b2 / 64));
        push_char(&mut out, digit(b2 % 64));
        assert forall|k: int| 0 <= k < out@.len() implies out@[k] == base64_digit(
            #[trigger] sextet(input@, k),
        ) by {
            if k >= 4 * q {
                assert(sextet(input@, k) == sextet(input@, 4 * q + (k - 4 * q)));
            }
        }
        i = i + 3;
        proof {
            q = q + 1;
        }
    }
    let rest = n - i;
    proof {
        lemma_group_position(q, 0);
        lemma_group_position(q, 1);
        lemma_group_position(q, 2);
        lemma_encoded_len(q, rest as int);
    }
    if rest == 1 {
        let b0 = input[i];
        push_char(&mut out, digit(b0 / 4));
        push_char(&mut out, digit((b0 % 4) * 16));
    } else if rest == 2 {
        let b0 = input[i];
        let b1 = input[i + 1];
        push_char(&mut out, digit(b0 / 4));
        push_char(&mut out, digit((b0 % 4) * 16 + b1 / 16));
        push_char(&mut out, digit((b1 % 16) * 4));
    }
    assert(out@ =~= base64_spec(input@)) by {
        assert forall|k: int| 0 <= k < out@.len() implies out@[k] == base64_digit(
            #[trigger] sextet(input@, k),
        ) by {
            if k >= 4 * q {
                assert(sextet(input@, k) == sextet(input@, 4 * q + (k - 4 * q)));
            }
        }
    }
    out
}

} // verus!
