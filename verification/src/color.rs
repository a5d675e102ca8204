//! Colors of three channels, and their form as whole numbers from 0 to 255.

use vstd::prelude::*;
use vstd::string::StringExecFns;
use vstd::std_specs::ops::{AddSpec, SubSpec, MulSpec};
use std::ops::{Add, Sub, Mul};
use num::Float;
use crate::float_service::{
    Scalar, exact, lit, gt, constant, close, close_defined, compare_floats, round_up, whole_part,
};

verus! {

/// A color: how much red, green and blue. Zero stands for none of a
/// channel and one for all of it; a channel may lie outside that range.
#[derive(Debug, Clone, Copy)]
pub struct Color<T> {
    pub red: T,
    pub green: T,
    pub blue: T,
}

/// The character of the decimal digit `d`.
pub open spec fn digit_char(d: nat) -> char {
    if d == 0 {
        '0'
    } else if d == 1 {
        '1'
    } else if d == 2 {
        '2'
    } else if d == 3 {
        '3'
    } else if d == 4 {
        '4'
    } else if d == 5 {
        '5'
    } else if d == 6 {
        '6'
    } else if d == 7 {
        '7'
    } else if d == 8 {
        '8'
    } else {
        '9'
    }
}

/// The decimal form of `n`, without leading zeros.
pub open spec fn digits(n: nat) -> Seq<char>
    decreases n,
{
    if n < 10 {
        seq![digit_char(n)]
    } else {
        digits(n / 10).push(digit_char(n % 10))
    }
}

/// The decimal form of `n` holds digits only: no space and no end of line.
pub proof fn lemma_digits_are_digits(n: nat)
    ensures
        digits(n).len() >= 1,
        forall|i: int|
            0 <= i < digits(n).len() ==> (#[trigger] digits(n)[i]) != '\n' && digits(n)[i] != ' ',
    decreases n,
{
    if n >= 10 {
        lemma_digits_are_digits(n / 10);
    }
}

/// Ten to the power `k`.
pub open spec fn ten_to(k: nat) -> nat
    decreases k,
{
    if k == 0 {
        1
    } else {
        10 * ten_to((k - 1) as nat)
    }
}

/// The decimal form of a number below ten to the power `k` has at most `k`
/// digits.
pub proof fn lemma_digits_len(n: nat, k: nat)
    requires
        k >= 1,
        n < ten_to(k),
    ensures
        digits(n).len() <= k,
    decreases k,
{
    if n >= 10 {
        assert(ten_to(1) == 10) by {
            reveal_with_fuel(ten_to, 2);
        }
        lemma_digits_len(n / 10, (k - 1) as nat);
    }
}

/// A whole number that fits in 64 bits has at most twenty decimal digits,
/// and one that fits in 8 bits at most three.
pub proof fn lemma_digits_of_machine_numbers(n: nat)
    ensures
        n <= u64::MAX ==> digits(n).len() <= 20,
        n <= u8::MAX ==> digits(n).len() <= 3,
{
    assert(ten_to(20) == 100000000000000000000) by {
        reveal_with_fuel(ten_to, 21);
    }
    assert(ten_to(3) == 1000) by {
        reveal_with_fuel(ten_to, 4);
    }
    if n <= u64::MAX {
        lemma_digits_len(n, 20);
    }
    if n <= u8::MAX {
        lemma_digits_len(n, 3);
    }
}

/// The text of one decimal digit.
fn digit_text(d: usize) -> (r: &'static str)
    requires
        d < 10,
    ensures
        r@ == seq![digit_char(d as nat)],
{
    proof {
        reveal_strlit("0");
        reveal_strlit("1");
        reveal_strlit("2");
        reveal_strlit("3");
        reveal_strlit("4");
        reveal_strlit("5");
        reveal_strlit("6");
        reveal_strlit("7");
        reveal_strlit("8");
        reveal_strlit("9");
    }
    let r = if d == 0 {
        "0"
    } else if d == 1 {
        "1"
    } else if d == 2 {
        "2"
    } else if d == 3 {
        "3"
    } else if d == 4 {
        "4"
    } else if d == 5 {
        "5"
    } else if d == 6 {
        "6"
    } else if d == 7 {
        "7"
    } else if d == 8 {
        "8"
    } else {
        "9"
    };
    r
}

/// The decimal form of `n`.
pub fn decimal(n: usize) -> (r: String)
    ensures
        r@ == digits(n as nat),
    decreases n,
{
    if n < 10 {
        String::from_str(digit_text(n))
    } else {
        let mut text = decimal(n / 10);
        text.append(digit_text(n % 10));
        text
    }
}

/// What a channel becomes once it is rounded up to a whole number: that
/// number kept within 0 and 255, and 0 where there is none.
pub open spec fn clamped(rounded: Option<i32>) -> u8 {
    match rounded {
        Some(n) => if n > 255 {
            255u8
        } else if n < 0 {
            0u8
        } else {
            n as u8
        },
        None => 0u8,
    }
}

/// The whole number from 0 to 255 for what rounding up a channel gave.
pub fn clamp_channel(rounded: Option<i32>) -> (r: u8)
    ensures
        r == clamped(rounded),
{
    match rounded {
        Some(n) => if n > 255 {
            255
        } else if n < 0 {
            0
        } else {
            n as u8
        },
        None => 0,
    }
}

/// `byte` may stand for the channel `value`: the channel times 255 is
/// rounded up and kept within 0 and 255. Above 255 the byte is 255; at zero
/// or below, and where the product compares with nothing, it is 0; in
/// between, rounding up decides.
pub open spec fn stands_for<T: Scalar>(value: T, byte: u8) -> bool {
    if gt(value.mul_spec(lit::<T>(255)), lit::<T>(255)) {
        byte == 255
    } else if !gt(value.mul_spec(lit::<T>(255)), lit::<T>(0)) {
        byte == 0
    } else {
        exists|rounded: Option<i32>| byte == #[trigger] clamped(rounded)
    }
}

impl<T: Scalar> Color<T> {
    /// The sum, channel by channel.
    pub open spec fn plus(self, other: Self) -> Self {
        Color {
            red: self.red.add_spec(other.red),
            green: self.green.add_spec(other.green),
            blue: self.blue.add_spec(other.blue),
        }
    }

    /// The operations of [`Self::plus`] may be applied.
    pub open spec fn plus_defined(self, other: Self) -> bool {
        &&& self.red.add_req(other.red)
        &&& self.green.add_req(other.green)
        &&& self.blue.add_req(other.blue)
    }

    /// The difference, channel by channel.
    pub open spec fn minus(self, other: Self) -> Self {
        Color {
            red: self.red.sub_spec(other.red),
            green: self.green.sub_spec(other.green),
            blue: self.blue.sub_spec(other.blue),
        }
    }

    /// The operations of [`Self::minus`] may be applied.
    pub open spec fn minus_defined(self, other: Self) -> bool {
        &&& self.red.sub_req(other.red)
        &&& self.green.sub_req(other.green)
        &&& self.blue.sub_req(other.blue)
    }

    /// The product, channel by channel.
    pub open spec fn times(self, other: Self) -> Self {
        Color {
            red: self.red.mul_spec(other.red),
            green: self.green.mul_spec(other.green),
            blue: self.blue.mul_spec(other.blue),
        }
    }

    /// The operations of [`Self::times`] may be applied.
    pub open spec fn times_defined(self, other: Self) -> bool {
        &&& self.red.mul_req(other.red)
        &&& self.green.mul_req(other.green)
        &&& self.blue.mul_req(other.blue)
    }

    /// Every channel times `factor`.
    pub open spec fn scaled(self, factor: T) -> Self {
        Color {
            red: self.red.mul_spec(factor),
            green: self.green.mul_spec(factor),
            blue: self.blue.mul_spec(factor),
        }
    }

    /// The operations of [`Self::scaled`] may be applied.
    pub open spec fn scaled_defined(self, factor: T) -> bool {
        &&& self.red.mul_req(factor)
        &&& self.green.mul_req(factor)
        &&& self.blue.mul_req(factor)
    }

    /// The two colors agree within the tolerance in every channel.
    pub open spec fn approx(self, other: Self) -> bool {
        &&& close(self.red, other.red)
        &&& close(self.green, other.green)
        &&& close(self.blue, other.blue)
    }

    /// The operations that decide [`Self::approx`] may be applied.
    pub open spec fn approx_defined(self, other: Self) -> bool {
        &&& close_defined(self.red, other.red)
        &&& close_defined(self.green, other.green)
        &&& close_defined(self.blue, other.blue)
    }

    /// Every channel may be multiplied by 255.
    pub open spec fn bytes_defined(self) -> bool {
        &&& self.red.mul_req(lit::<T>(255))
        &&& self.green.mul_req(lit::<T>(255))
        &&& self.blue.mul_req(lit::<T>(255))
    }

    /// The color of the three channels given.
    pub fn new(red: T, green: T, blue: T) -> (r: Self)
        ensures
            r == (Color { red, green, blue }),
    {
        Self { red, green, blue }
    }

    /// Equality within the tolerance, channel by channel.
    pub fn eq(&self, other: &Self) -> (r: bool)
        requires
            exact::<T>(),
            self.approx_defined(*other),
        ensures
            r == self.approx(*other),
    {
        compare_floats(self.red, other.red) && compare_floats(self.green, other.green)
            && compare_floats(self.blue, other.blue)
    }
}

impl<T: Scalar + Float> Color<T> {
    /// The whole number from 0 to 255 that stands for a channel. Rounding
    /// up is done outside this crate, and only for a product that lies
    /// above 0 and not above 255.
    pub fn channel(value: T) -> (r: u8)
        requires
            exact::<T>(),
            value.mul_req(lit::<T>(255)),
        ensures
            stands_for(value, r),
    {
        let full: T = constant(255);
        let zero: T = constant(0);
        let product = value * full;
        if product > full {
            255
        } else if product > zero {
            let rounded = whole_part(round_up(product));
            let r = clamp_channel(rounded);
            r
        } else {
            0
        }
    }

    /// The three whole numbers that stand for the channels: red, green,
    /// blue.
    pub fn to_bytes(&self) -> (r: [u8; 3])
        requires
            exact::<T>(),
            self.bytes_defined(),
        ensures
            stands_for(self.red, r[0]),
            stands_for(self.green, r[1]),
            stands_for(self.blue, r[2]),
    {
        [Self::channel(self.red), Self::channel(self.green), Self::channel(self.blue)]
    }

    /// The decimal forms of the three whole numbers that stand for the
    /// channels: red, green, blue.
    pub fn to_vec_string(&self) -> (r: Vec<String>)
        requires
            exact::<T>(),
            self.bytes_defined(),
        ensures
            r.len() == 3,
            exists|red: u8, green: u8, blue: u8|
                {
                    &&& stands_for(self.red, red)
                    &&& stands_for(self.green, green)
                    &&& stands_for(self.blue, blue)
                    &&& r[0]@ == #[trigger] digits(red as nat)
                    &&& r[1]@ == #[trigger] digits(green as nat)
                    &&& r[2]@ == #[trigger] digits(blue as nat)
                },
    {
        let bytes = self.to_bytes();
        let mut texts: Vec<String> = Vec::new();
        texts.push(decimal(bytes[0] as usize));
        texts.push(decimal(bytes[1] as usize));
        texts.push(decimal(bytes[2] as usize));
        texts
    }

    /// The color as text: the three decimal forms of
    /// [`Self::to_vec_string`] with one space between them.
    pub fn to_string(&self) -> (r: String)
        requires
            exact::<T>(),
            self.bytes_defined(),
        ensures
            exists|red: u8, green: u8, blue: u8|
                {
                    &&& stands_for(self.red, red)
                    &&& stands_for(self.green, green)
                    &&& stands_for(self.blue, blue)
                    &&& r@ == #[trigger] triple_text(red, green, blue)
                },
    {
        let bytes = self.to_bytes();
        let mut text = decimal(bytes[0] as usize);
        text.append(" ");
        text.append(decimal(bytes[1] as usize).as_str());
        text.append(" ");
        text.append(decimal(bytes[2] as usize).as_str());
        proof {
            reveal_strlit(" ");
            assert(text@ =~= triple_text(bytes[0], bytes[1], bytes[2]));
        }
        text
    }
}

/// Three whole numbers in decimal form with one space between them.
pub open spec fn triple_text(red: u8, green: u8, blue: u8) -> Seq<char> {
    digits(red as nat) + seq![' '] + digits(green as nat) + seq![' '] + digits(blue as nat)
}

impl<T: Scalar> Add<Color<T>> for Color<T> {
    type Output = Color<T>;

    /// The sum, channel by channel.
    fn add(self, rhs: Color<T>) -> (r: Self::Output) {
        Color::new(self.red + rhs.red, self.green + rhs.green, self.blue + rhs.blue)
    }
}

impl<T: Scalar> vstd::std_specs::ops::AddSpecImpl<Color<T>> for Color<T> {
    open spec fn obeys_add_spec() -> bool {
        exact::<T>()
    }

    open spec fn add_req(self, rhs: Color<T>) -> bool {
        self.plus_defined(rhs)
    }

    open spec fn add_spec(self, rhs: Color<T>) -> Self {
        self.plus(rhs)
    }
}

impl<T: Scalar> Sub<Color<T>> for Color<T> {
    type Output = Color<T>;

    /// The difference, channel by channel.
    fn sub(self, rhs: Color<T>) -> (r: Self::Output) {
        Color::new(self.red - rhs.red, self.green - rhs.green, self.blue - rhs.blue)
    }
}

impl<T: Scalar> vstd::std_specs::ops::SubSpecImpl<Color<T>> for Color<T> {
    open spec fn obeys_sub_spec() -> bool {
        exact::<T>()
    }

    open spec fn sub_req(self, rhs: Color<T>) -> bool {
        self.minus_defined(rhs)
    }

    open spec fn sub_spec(self, rhs: Color<T>) -> Self {
        self.minus(rhs)
    }
}

impl<T: Scalar> Mul<Color<T>> for Color<T> {
    type Output = Color<T>;

    /// The product, channel by channel.
    fn mul(self, rhs: Color<T>) -> (r: Self::Output) {
        Color::new(self.red * rhs.red, self.green * rhs.green, self.blue * rhs.blue)
    }
}

impl<T: Scalar> vstd::std_specs::ops::MulSpecImpl<Color<T>> for Color<T> {
    open spec fn obeys_mul_spec() -> bool {
        exact::<T>()
    }

    open spec fn mul_req(self, rhs: Color<T>) -> bool {
        self.times_defined(rhs)
    }

    open spec fn mul_spec(self, rhs: Color<T>) -> Self {
        self.times(rhs)
    }
}

impl<T: Scalar> Mul<T> for Color<T> {
    type Output = Color<T>;

    /// Every channel times the scalar.
    fn mul(self, rhs: T) -> (r: Self::Output) {
        Color::new(self.red * rhs, self.green * rhs, self.blue * rhs)
    }
}

impl<T: Scalar> vstd::std_specs::ops::MulSpecImpl<T> for Color<T> {
    open spec fn obeys_mul_spec() -> bool {
        exact::<T>()
    }

    open spec fn mul_req(self, rhs: T) -> bool {
        self.scaled_defined(rhs)
    }

    open spec fn mul_spec(self, rhs: T) -> Self {
        self.scaled(rhs)
    }
}

} // verus!
