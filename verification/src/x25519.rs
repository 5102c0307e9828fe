//! The X25519 function at its base point, as a statement about a curve.
//!
//! The curve is `v^2 = u^3 + 486662 u^2 + u` over the integers modulo `2^255 - 19`,
//! and the base point is the point of `u` nine. The public key of a private key is
//! the `u` of a multiple of the base point. RFC 7748 names the curve curve25519.

use vstd::arithmetic::div_mod;
use vstd::arithmetic::power;
use vstd::prelude::*;

verus! {

/// The prime that the curve's coordinates are taken modulo.
pub open spec fn prime() -> int {
    power::pow(2, 255) - 19
}

/// A point of the curve: the neutral one, or one with coordinates.
pub enum Point {
    Neutral,
    At { u: int, v: int },
}

/// The number that times `a` leaves one.
pub open spec fn inverse(a: int) -> int {
    choose|x: int| 0 <= x < prime() && #[trigger] (a * x) % prime() == 1
}

/// The point where the line through `(u1, v1)` and another point of the curve, of
/// the given slope, meets the curve again, mirrored.
pub open spec fn third(u1: int, v1: int, u2: int, slope: int) -> Point {
    let u = (slope * slope - 486662 - u1 - u2) % prime();
    Point::At { u, v: (slope * (u1 - u) - v1) % prime() }
}

/// The sum of two points.
pub open spec fn plus(a: Point, b: Point) -> Point {
    match (a, b) {
        (Point::Neutral, _) => b,
        (_, Point::Neutral) => a,
        (Point::At { u: u1, v: v1 }, Point::At { u: u2, v: v2 }) => if u1 != u2 {
            third(u1, v1, u2, (v2 - v1) * inverse(u2 - u1))
        } else if (v1 + v2) % prime() == 0 {
            Point::Neutral
        } else {
            third(u1, v1, u2, (3 * u1 * u1 + 2 * 486662 * u1 + 1) * inverse(2 * v1))
        },
    }
}

/// The point added up `n` times.
pub open spec fn times(n: nat, a: Point) -> Point
    decreases n,
{
    if n == 0 {
        Point::Neutral
    } else {
        plus(times((n - 1) as nat, a), a)
    }
}

/// The base point.
pub open spec fn base() -> Point {
    Point::At {
        u: 9,
        v: 14781619447589544791020593568409986887264606134616475288964881837755586237401int,
    }
}

/// The first coordinate of a point.
pub open spec fn first(a: Point) -> int {
    match a {
        Point::Neutral => 0,
        Point::At { u, .. } => u,
    }
}

/// The number that the bytes stand for, the lowest first.
pub open spec fn number(bytes: Seq<u8>) -> nat
    decreases bytes.len(),
{
    if bytes.len() == 0 {
        0
    } else {
        bytes[0] as nat + 256 * number(bytes.drop_first())
    }
}

/// The lowest `len` bytes of a number, the lowest first.
pub open spec fn bytes(n: nat, len: nat) -> Seq<u8>
    decreases len,
{
    if len == 0 {
        Seq::empty()
    } else {
        seq![(n % 256) as u8] + bytes(n / 256, (len - 1) as nat)
    }
}

/// How often a private key adds the base point up: its number, with the bits 0, 1, 2
/// and 255 cleared and the bit 254 set.
pub open spec fn scalar(private_key: Seq<u8>) -> nat {
    let low = number(private_key) % power::pow(2, 254) as nat;
    (power::pow(2, 254) + (low - low % 8)) as nat
}

/// The public key of a private key.
pub open spec fn public_key(private_key: Seq<u8>) -> Seq<u8> {
    bytes(first(times(scalar(private_key), base())) as nat, 32)
}

/// Whether a bit of a number is set.
pub open spec fn bit(n: nat, i: nat) -> bool {
    n / (power::pow(2, i) as nat) % 2 == 1
}

proof fn lemma_powers()
    ensures
        prime() == 0x7fffffffffffffffffffffffffffffffffffffffffffffffffffffffffffffedint,
        power::pow(2, 254) == 0x4000000000000000000000000000000000000000000000000000000000000000int,
        power::pow(2, 255) == 0x8000000000000000000000000000000000000000000000000000000000000000int,
{
    assert(power::pow(2, 1) == 2 && power::pow(2, 30) == 0x4000_0000 && power::pow(2, 32)
        == 0x1_0000_0000) by {
        reveal(power::pow);
        reveal_with_fuel(power::pow, 33);
    }
    power::lemma_pow_adds(2, 32, 32);
    assert(power::pow(2, 64) == 0x1_0000_0000_0000_0000int);
    power::lemma_pow_adds(2, 64, 64);
    assert(power::pow(2, 128) == 0x1_0000_0000_0000_0000_0000_0000_0000_0000int);
    power::lemma_pow_adds(2, 64, 32);
    power::lemma_pow_adds(2, 96, 30);
    assert(power::pow(2, 96) == 0x1_0000_0000_0000_0000_0000_0000int);
    assert(power::pow(2, 126) == 0x4000_0000_0000_0000_0000_0000_0000_0000int);
    power::lemma_pow_adds(2, 128, 126);
    power::lemma_pow_adds(2, 254, 1);
}

/// The base point is on the curve.
pub proof fn law_base_is_on_the_curve()
    ensures
        base() matches Point::At { u, v } && u == 9 && (v * v) % prime() == (u * u * u + 486662 * u
            * u + u) % prime(),
{
    lemma_powers();
}

proof fn lemma_scalar_bit(private_key: Seq<u8>, i: nat)
    requires
        3 <= i < 254,
    ensures
        bit(scalar(private_key), i) == bit(number(private_key), i),
{
    let n: int = number(private_key) as int;
    let y = power::pow(2, i);
    let z = power::pow(2, (254 - i) as nat);
    let half = power::pow(2, (253 - i) as nat);
    let w = power::pow(2, (i - 3) as nat);
    let low = n % power::pow(2, 254);
    let q = low / 8;
    power::lemma_pow_positive(2, i);
    power::lemma_pow_positive(2, (254 - i) as nat);
    power::lemma_pow_positive(2, (253 - i) as nat);
    power::lemma_pow_positive(2, (i - 3) as nat);
    power::lemma_pow_adds(2, i, (254 - i) as nat);
    power::lemma_pow_adds(2, 1, (253 - i) as nat);
    power::lemma_pow_adds(2, 3, (i - 3) as nat);
    assert(power::pow(2, 1) == 2 && power::pow(2, 3) == 8) by {
        reveal(power::pow);
        reveal_with_fuel(power::pow, 4);
    }
    div_mod::lemma_mod_breakdown(n, y, z);
    assert(low / y == (n / y) % z) by {
        div_mod::lemma_fundamental_div_mod_converse(low, y, (n / y) % z, n % y);
    }
    div_mod::lemma_mod_mod(n / y, 2, half);
    div_mod::lemma_div_denominator(low, 8, w);
    div_mod::lemma_div_denominator(8 * q, 8, w);
    assert((8 * q) / 8 == q);
    assert((8 * q) / y == low / y);
    div_mod::lemma_hoist_over_denominator(8 * q, z, y as nat);
    assert(scalar(private_key) == 8 * q + z * y) by {
        assert(z * y == power::pow(2, 254)) by (nonlinear_arith)
            requires
                power::pow(2, 254) == y * z,
        ;
    }
    assert(scalar(private_key) as int / y == low / y + 2 * half);
    assert((low / y + 2 * half) % 2 == (low / y) % 2);
}

/// A private key adds the base point up as often as its number says, but for five
/// bits: 0, 1, 2 and 255 are clear and 254 is set, whatever they are in the key. Each
/// other bit counts.
pub proof fn law_scalar_by_bit(private_key: Seq<u8>, i: nat)
    requires
        i < 256,
    ensures
        bit(scalar(private_key), i) == if 3 <= i < 254 {
            bit(number(private_key), i)
        } else {
            i == 254
        },
        scalar(private_key) < power::pow(2, 255),
{
    lemma_powers();
    reveal(power::pow);
    reveal_with_fuel(power::pow, 4);
    let s = scalar(private_key);
    assert(s % 8 == 0);
    if i < 3 {
        assert(power::pow(2, 0) == 1 && power::pow(2, 1) == 2 && power::pow(2, 2) == 4);
        assert(s / 1 % 2 == 0 && s / 2 % 2 == 0 && s / 4 % 2 == 0);
    } else if i < 254 {
        lemma_scalar_bit(private_key, i);
    } else if i == 254 {
        div_mod::lemma_fundamental_div_mod_converse(
            s as int,
            power::pow(2, 254),
            1,
            s - power::pow(2, 254),
        );
    } else {
        div_mod::lemma_fundamental_div_mod_converse(s as int, power::pow(2, 255), 0, s as int);
    }
}

proof fn lemma_number_of_bytes(n: nat, len: nat)
    requires
        n < power::pow(256, len),
    ensures
        bytes(n, len).len() == len,
        number(bytes(n, len)) == n,
    decreases len,
{
    reveal(power::pow);
    if len > 0 {
        let rest = (len - 1) as nat;
        assert(n / 256 < power::pow(256, rest));
        lemma_number_of_bytes(n / 256, rest);
        assert(bytes(n, len).drop_first() =~= bytes(n / 256, rest));
    }
}

/// Bytes of the same length that stand for the same number are the same.
pub proof fn law_number_tells_bytes_apart(a: Seq<u8>, b: Seq<u8>)
    requires
        a.len() == b.len(),
        number(a) == number(b),
    ensures
        a == b,
    decreases a.len(),
{
    if a.len() > 0 {
        assert(number(a) % 256 == a[0] && number(b) % 256 == b[0]);
        law_number_tells_bytes_apart(a.drop_first(), b.drop_first());
        assert(a =~= seq![a[0]] + a.drop_first());
        assert(b =~= seq![b[0]] + b.drop_first());
    } else {
        assert(a =~= b);
    }
}

/// A public key has 32 bytes, which stand for the first coordinate of the multiple of
/// the base point that its private key says.
pub proof fn law_public_key_is_a_coordinate(private_key: Seq<u8>)
    ensures
        public_key(private_key).len() == 32,
        number(public_key(private_key)) == first(times(scalar(private_key), base())),
        number(public_key(private_key)) < prime(),
{
    lemma_powers();
    lemma_coordinate(scalar(private_key));
    assert(power::pow(256, 32) > prime()) by {
        reveal(power::pow);
        reveal_with_fuel(power::pow, 33);
    }
    lemma_number_of_bytes(first(times(scalar(private_key), base())) as nat, 32);
}

proof fn lemma_coordinate(n: nat)
    ensures
        0 <= first(times(n, base())) < prime(),
    decreases n,
{
    lemma_powers();
    if n > 0 {
        lemma_coordinate((n - 1) as nat);
    }
}

/// Keys that differ in the bits 0, 1, 2, 254 and 255 alone have the same public key.
pub proof fn law_five_bits_do_not_count(a: Seq<u8>, b: Seq<u8>)
    requires
        number(a) % (power::pow(2, 254) as nat) / 8 == number(b) % (power::pow(2, 254) as nat) / 8,
    ensures
        public_key(a) == public_key(b),
{
}

} // verus!
