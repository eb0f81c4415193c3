//! Text as bytes: decimal numbers and zero-padded buffers.
use vstd::prelude::*;
use vstd::string::StrSliceExecFns;
use vstd::string::StringSliceAdditionalSpecFns;

verus! {

/// Number of bytes in one text buffer.
pub const CHUNK_LEN: usize = 64;

/// The decimal digits of `n` as ASCII bytes, most significant first,
/// without leading zeros.
pub open spec fn decimal(n: nat) -> Seq<u8>
    decreases n,
{
    if n < 10 {
        seq![(48 + n) as u8]
    } else {
        decimal(n / 10).push((48 + n % 10) as u8)
    }
}

/// Ten to the power of `k`.
pub open spec fn pow10(k: nat) -> nat
    decreases k,
{
    if k == 0 {
        1
    } else {
        10 * pow10((k - 1) as nat)
    }
}

/// `text` followed by zero bytes up to the length of a buffer.
pub open spec fn padded(text: Seq<u8>) -> Seq<u8> {
    Seq::new(CHUNK_LEN as nat, |i: int| if i < text.len() { text[i] } else { 0u8 })
}

/// Something that is shown as text.
pub trait Text {
    /// The bytes that show the value.
    spec fn text_spec(&self) -> Seq<u8>;

    /// The bytes that show the value.
    fn text(&self) -> (out: Vec<u8>)
        ensures
            out@ == self.text_spec(),
    ;
}

/// A number below ten to the power of `k`, `k` at least 1, has at most
/// `k` digits.
pub proof fn lemma_decimal_len(n: nat, k: nat)
    requires
        k >= 1,
        n < pow10(k),
    ensures
        1 <= decimal(n).len() <= k,
    decreases k,
{
    reveal_with_fuel(pow10, 2);
    if n >= 10 {
        assert(k >= 2) by {
            if k == 1 {
                assert(pow10(1) == 10);
            }
        }
        assert(n / 10 < pow10((k - 1) as nat));
        lemma_decimal_len(n / 10, (k - 1) as nat);
    }
}

/// A 64-bit number has at most 20 digits.
pub proof fn lemma_decimal_len_u64(n: u64)
    ensures
        1 <= decimal(n as nat).len() <= 20,
{
    assert(pow10(20) == 100000000000000000000nat) by {
        reveal_with_fuel(pow10, 21);
    }
    lemma_decimal_len(n as nat, 20);
}

/// Every byte of a decimal number is a digit.
pub proof fn lemma_decimal_digits(n: nat)
    ensures
        forall|i: int| 0 <= i < decimal(n).len() ==> 48 <= #[trigger] decimal(n)[i] <= 57,
    decreases n,
{
    if n >= 10 {
        lemma_decimal_digits(n / 10);
        let upper = decimal(n / 10);
        assert forall|i: int| 0 <= i < decimal(n).len() implies 48 <= #[trigger] decimal(n)[i]
            <= 57 by {
            if i < upper.len() {
                assert(decimal(n)[i] == upper[i]);
            } else {
                assert(decimal(n)[i] == (48 + n % 10) as u8);
            }
        }
    }
}

/// The decimal digits of `n`.
pub fn render_decimal(n: u64) -> (out: Vec<u8>)
    ensures
        out@ == decimal(n as nat),
{
    let mut rev: Vec<u8> = Vec::new();
    let mut rest: u64 = n;
    while rest >= 10
        invariant
            decimal(n as nat) == decimal(rest as nat) + rev@.reverse(),
        decreases rest,
    {
        let digit: u8 = 48 + (rest % 10) as u8;
        proof {
            let grown = rev@.push(digit);
            assert(grown.reverse() =~= seq![digit] + rev@.reverse());
            assert(decimal(rest as nat) == decimal((rest / 10) as nat).push(digit));
            assert(decimal((rest / 10) as nat).push(digit) + rev@.reverse() =~= decimal(
                (rest / 10) as nat,
            ) + (seq![digit] + rev@.reverse()));
        }
        rev.push(digit);
        rest = rest / 10;
    }
    let top: u8 = 48 + rest as u8;
    proof {
        let grown = rev@.push(top);
        assert(grown.reverse() =~= seq![top] + rev@.reverse());
        assert(decimal(rest as nat) =~= seq![top]);
    }
    rev.push(top);
    let mut out: Vec<u8> = Vec::new();
    let mut i: usize = rev.len();
    while i > 0
        invariant
            i <= rev.len(),
            out@ == rev@.reverse().take(rev.len() - i),
        decreases i,
    {
        i -= 1;
        out.push(rev[i]);
        assert(out@ =~= rev@.reverse().take(rev.len() - i));
    }
    assert(out@ =~= rev@.reverse());
    out
}

/// A buffer that holds `text` and then zero bytes.
pub fn fill_chunk(text: &Vec<u8>) -> (chunk: [u8; 64])
    requires
        text.len() <= CHUNK_LEN,
    ensures
        chunk@ == padded(text@),
{
    let mut chunk = [0u8; 64];
    let mut i: usize = 0;
    while i < text.len()
        invariant
            i <= text.len() <= 64,
            forall|j: int| 0 <= j < i ==> chunk@[j] == text@[j],
            forall|j: int| i <= j < 64 ==> chunk@[j] == 0,
        decreases text.len() - i,
    {
        chunk[i] = text[i];
        i += 1;
    }
    assert(chunk@ =~= padded(text@));
    chunk
}

impl Text for u64 {
    open spec fn text_spec(&self) -> Seq<u8> {
        decimal(*self as nat)
    }

    fn text(&self) -> (out: Vec<u8>) {
        render_decimal(*self)
    }
}

impl<'a> Text for &'a str {
    open spec fn text_spec(&self) -> Seq<u8> {
        (*self).spec_bytes()
    }

    fn text(&self) -> (out: Vec<u8>) {
        (*self).as_bytes_vec()
    }
}

impl Text for u8 {
    open spec fn text_spec(&self) -> Seq<u8> {
        decimal(*self as nat)
    }

    fn text(&self) -> (out: Vec<u8>) {
        render_decimal(*self as u64)
    }
}

} // verus!
