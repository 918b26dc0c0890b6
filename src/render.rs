use vstd::prelude::*;
use vstd::string::StringExecFns;

verus! {

/// The decimal digit `d` as a character.
pub open spec fn digit_char(d: nat) -> char {
    seq!['0', '1', '2', '3', '4', '5', '6', '7', '8', '9'][d as int]
}

/// The decimal digits of `n`, most significant first, without leading zeros.
pub open spec fn digits(n: nat) -> Seq<char>
    decreases n,
{
    if n < 10 {
        seq![digit_char(n)]
    } else {
        digits(n / 10).push(digit_char(n % 10))
    }
}

/// The decimal text of an integer: its digits, after a '-' when it is negative.
pub open spec fn decimal(n: int) -> Seq<char> {
    if n < 0 {
        seq!['-'] + digits((-n) as nat)
    } else {
        digits(n as nat)
    }
}

/// Relies on `ToString` for `i128`, which writes through its `Display`:
/// the decimal digits, after a '-' for a negative value.
#[verifier::external_body]
fn i128_text(n: i128) -> (r: String)
    ensures
        r@ == decimal(n as int),
{
    n.to_string()
}

/// A scalar with a textual form.
pub trait Render {
    /// The text that `render` gives.
    spec fn text(&self) -> Seq<char>;

    /// Renders the value as text.
    fn render(&self) -> (r: String)
        ensures
            r@ == self.text(),
    ;
}

impl Render for i8 {
    open spec fn text(&self) -> Seq<char> {
        decimal(*self as int)
    }

    fn render(&self) -> (r: String) {
        i128_text(*self as i128)
    }
}

impl Render for i16 {
    open spec fn text(&self) -> Seq<char> {
        decimal(*self as int)
    }

    fn render(&self) -> (r: String) {
        i128_text(*self as i128)
    }
}

impl Render for i32 {
    open spec fn text(&self) -> Seq<char> {
        decimal(*self as int)
    }

    fn render(&self) -> (r: String) {
        i128_text(*self as i128)
    }
}

impl Render for i64 {
    open spec fn text(&self) -> Seq<char> {
        decimal(*self as int)
    }

    fn render(&self) -> (r: String) {
        i128_text(*self as i128)
    }
}

impl Render for isize {
    open spec fn text(&self) -> Seq<char> {
        decimal(*self as int)
    }

    fn render(&self) -> (r: String) {
        i128_text(*self as i128)
    }
}

impl Render for u8 {
    open spec fn text(&self) -> Seq<char> {
        decimal(*self as int)
    }

    fn render(&self) -> (r: String) {
        i128_text(*self as i128)
    }
}

impl Render for u16 {
    open spec fn text(&self) -> Seq<char> {
        decimal(*self as int)
    }

    fn render(&self) -> (r: String) {
        i128_text(*self as i128)
    }
}

impl Render for u32 {
    open spec fn text(&self) -> Seq<char> {
        decimal(*self as int)
    }

    fn render(&self) -> (r: String) {
        i128_text(*self as i128)
    }
}

impl Render for u64 {
    open spec fn text(&self) -> Seq<char> {
        decimal(*self as int)
    }

    fn render(&self) -> (r: String) {
        i128_text(*self as i128)
    }
}

impl Render for usize {
    open spec fn text(&self) -> Seq<char> {
        decimal(*self as int)
    }

    fn render(&self) -> (r: String) {
        i128_text(*self as i128)
    }
}

/// The rendering of a pair: the first text, one space, then the second.
pub open spec fn pair_text(first: Seq<char>, second: Seq<char>) -> Seq<char> {
    first + seq![' '] + second
}

/// Joins two texts with a single space between them.
pub fn join_pair(first: String, second: &String) -> (r: String)
    ensures
        r@ == pair_text(first@, second@),
{
    proof {
        reveal_strlit(" ");
    }
    first.concat(" ").concat(second.as_str())
}

} // verus!
