//! Primality by trial division, and the listing of the primes up to a bound.

use vstd::prelude::*;

verus! {

/// `d` divides `n` without remainder.
pub open spec fn divides(d: nat, n: nat) -> bool {
    d > 0 && n % d == 0
}

/// `n` is at least 2 and no number strictly between 1 and `n` divides it.
pub open spec fn is_prime_number(n: nat) -> bool {
    n >= 2 && forall|d: nat| 2 <= d < n ==> !#[trigger] divides(d, n)
}

/// No number of `[2, limit)` divides `n`.
pub open spec fn no_divisor_below(n: nat, limit: nat) -> bool {
    forall|d: nat| 2 <= d < limit ==> !#[trigger] divides(d, n)
}

/// The primes that are at most `bound`, in increasing order.
pub open spec fn primes_up_to(bound: nat) -> Seq<u64>
    decreases bound,
{
    if bound == 0 {
        Seq::empty()
    } else if is_prime_number(bound) {
        primes_up_to((bound - 1) as nat).push(bound as u64)
    } else {
        primes_up_to((bound - 1) as nat)
    }
}

/// `root` is the largest number whose square is at most `n`.
pub open spec fn is_integer_sqrt(root: nat, n: nat) -> bool {
    root * root <= n < (root + 1) * (root + 1)
}

/// Divisibility is transitive: what divides a divisor of `n` divides `n`.
pub proof fn lemma_divides_transitive(k: nat, d: nat, n: nat)
    requires
        divides(k, d),
        divides(d, n),
    ensures
        divides(k, n),
{
    let a = d / k;
    let b = n / d;
    assert(d == k * a) by {
        vstd::arithmetic::div_mod::lemma_fundamental_div_mod(d as int, k as int);
    }
    assert(n == d * b) by {
        vstd::arithmetic::div_mod::lemma_fundamental_div_mod(n as int, d as int);
    }
    assert(n == k * (a * b)) by (nonlinear_arith)
        requires
            d == k * a,
            n == d * b,
    ;
    assert((k * (a * b)) % k == 0) by {
        vstd::arithmetic::div_mod::lemma_mod_multiples_basic((a * b) as int, k as int);
        assert(k * (a * b) == (a * b) * k) by (nonlinear_arith);
    }
}

/// A number that has a divisor in `[2, n)` has one whose square is at most `n`.
pub proof fn lemma_small_divisor(d: nat, n: nat, root: nat)
    requires
        2 <= d < n,
        divides(d, n),
        is_integer_sqrt(root, n),
    ensures
        exists|s: nat| 2 <= s <= root && #[trigger] divides(s, n),
{
    let q = n / d;
    assert(n == d * q) by {
        vstd::arithmetic::div_mod::lemma_fundamental_div_mod(n as int, d as int);
    }
    assert(q >= 2) by (nonlinear_arith)
        requires
            n == d * q,
            2 <= d < n,
    ;
    assert(divides(q, n)) by {
        vstd::arithmetic::div_mod::lemma_mod_multiples_basic(d as int, q as int);
    }
    if d <= root {
        assert(2 <= d <= root && divides(d, n));
    } else {
        assert(q <= root) by (nonlinear_arith)
            requires
                n == d * q,
                d >= root + 1,
                n < (root + 1) * (root + 1),
        ;
        assert(2 <= q <= root && divides(q, n));
    }
}

/// Without a divisor up to its integer square root, a number from 2 on is prime.
pub proof fn lemma_prime_by_sqrt(n: nat, root: nat, limit: nat)
    requires
        n >= 2,
        is_integer_sqrt(root, n),
        limit > root,
        no_divisor_below(n, limit),
    ensures
        is_prime_number(n),
{
    assert forall|d: nat| 2 <= d < n implies !#[trigger] divides(d, n) by {
        if divides(d, n) {
            lemma_small_divisor(d, n, root);
            let s = choose|s: nat| 2 <= s <= root && #[trigger] divides(s, n);
            assert(!divides(s, n));
        }
    }
}

/// An even number from 4 on is not prime.
pub proof fn lemma_even_not_prime(n: nat)
    requires
        n >= 4,
        n % 2 == 0,
    ensures
        !is_prime_number(n),
{
    assert(divides(2, n));
}

/// The listing holds exactly the primes up to the bound, each once and in
/// increasing order.
pub proof fn lemma_primes_up_to(bound: nat)
    requires
        bound <= u64::MAX,
    ensures
        forall|p: u64| #[trigger]
            primes_up_to(bound).contains(p) <==> is_prime_number(p as nat) && p <= bound,
        forall|i: int, j: int|
            0 <= i < j < primes_up_to(bound).len() ==> primes_up_to(bound)[i] < primes_up_to(
                bound,
            )[j],
    decreases bound,
{
    let listing = primes_up_to(bound);
    if bound == 0 {
        assert(!is_prime_number(0));
    } else {
        let shorter = primes_up_to((bound - 1) as nat);
        lemma_primes_up_to((bound - 1) as nat);
        if is_prime_number(bound) {
            assert(listing == shorter.push(bound as u64));
            assert forall|p: u64| #[trigger]
                listing.contains(p) <==> is_prime_number(p as nat) && p <= bound by {
                if listing.contains(p) {
                    let i = choose|i: int| 0 <= i < listing.len() && listing[i] == p;
                    if i < shorter.len() {
                        assert(shorter.contains(p));
                    }
                }
                if is_prime_number(p as nat) && p <= bound {
                    if p == bound {
                        assert(listing[shorter.len() as int] == p);
                    } else {
                        assert(shorter.contains(p));
                        let i = choose|i: int| 0 <= i < shorter.len() && shorter[i] == p;
                        assert(listing[i] == p);
                    }
                }
            }
            assert forall|i: int, j: int| 0 <= i < j < listing.len() implies listing[i]
                < listing[j] by {
                assert(listing[i] == shorter[i]);
                if j == shorter.len() {
                    assert(shorter.contains(shorter[i]));
                    assert(listing[j] == bound);
                } else {
                    assert(listing[j] == shorter[j]);
                }
            }
        } else {
            assert(listing == shorter);
        }
    }
}

/// The first primes: none up to 1, then 2, then 2 and 3.
pub proof fn lemma_first_primes()
    ensures
        primes_up_to(0) == Seq::<u64>::empty(),
        primes_up_to(1) == Seq::<u64>::empty(),
        primes_up_to(2) == seq![2u64],
        primes_up_to(3) == seq![2u64, 3u64],
{
    reveal_with_fuel(primes_up_to, 4);
    assert(!is_prime_number(1));
    assert(is_prime_number(2));
    assert(is_prime_number(3)) by {
        assert forall|d: nat| 2 <= d < 3 implies !#[trigger] divides(d, 3) by {
            assert(d == 2);
        }
    }
    assert(primes_up_to(2) =~= seq![2u64]);
    assert(primes_up_to(3) =~= seq![2u64, 3u64]);
}

/// Computes the integer square root of `n` by bisection.
pub fn integer_sqrt(n: u64) -> (root: u64)
    ensures
        is_integer_sqrt(root as nat, n as nat),
        root < 0x1_0000_0000,
{
    let mut low: u64 = 0;
    let mut high: u64 = 0x1_0000_0000;
    assert(0x1_0000_0000u64 * 0x1_0000_0000u64 > n) by (nonlinear_arith)
        requires
            n <= 0xffff_ffff_ffff_ffff,
    ;
    while high - low > 1
        invariant
            low < high <= 0x1_0000_0000,
            low * low <= n < high * high,
        decreases high - low,
    {
        let mid: u64 = low + (high - low) / 2;
        assert(mid * mid <= 0xffff_ffff * 0xffff_ffff) by (nonlinear_arith)
            requires
                mid <= 0xffff_ffff,
        ;
        if mid * mid <= n {
            low = mid;
        } else {
            high = mid;
        }
    }
    low
}

/// Decides whether `n` is prime: 0 and 1 are not, 2 and 3 are, multiples of
/// 2 and 3 are not, and any other number is tried against the divisors
/// `6k - 1` and `6k + 1` up to its integer square root.
pub fn is_prime(n: u64) -> (prime: bool)
    ensures
        prime == is_prime_number(n as nat),
{
    if n <= 1 {
        return false;
    }
    if n <= 3 {
        assert(is_prime_number(n as nat)) by {
            assert forall|d: nat| 2 <= d < n implies !#[trigger] divides(d, n as nat) by {
                assert(d == 2 && n == 3);
            }
        }
        return true;
    }
    if n % 2 == 0 || n % 3 == 0 {
        proof {
            if n % 2 == 0 {
                assert(divides(2, n as nat));
            } else {
                assert(divides(3, n as nat));
            }
        }
        return false;
    }
    let root = integer_sqrt(n);
    let mut i: u64 = 5;
    assert(no_divisor_below(n as nat, 5)) by {
        assert forall|d: nat| 2 <= d < 5 implies !#[trigger] divides(d, n as nat) by {
            if d == 4 && divides(4, n as nat) {
                assert(divides(2, 4));
                lemma_divides_transitive(2, 4, n as nat);
            }
        }
    }
    while i <= root
        invariant
            n >= 5,
            n % 2 != 0,
            n % 3 != 0,
            is_integer_sqrt(root as nat, n as nat),
            root < 0x1_0000_0000,
            5 <= i <= root + 6,
            i % 6 == 5,
            no_divisor_below(n as nat, i as nat),
        decreases root + 6 - i,
    {
        assert(i + 2 < n) by (nonlinear_arith)
            requires
                5 <= i <= root,
                root * root <= n,
        ;
        if n % i == 0 || n % (i + 2) == 0 {
            proof {
                if n % i == 0 {
                    assert(divides(i as nat, n as nat));
                } else {
                    assert(divides((i + 2) as nat, n as nat));
                }
            }
            return false;
        }
        proof {
            let m = n as nat;
            assert forall|d: nat| 2 <= d < i + 6 implies !#[trigger] divides(d, m) by {
                if d >= i && divides(d, m) {
                    if d == i + 1 || d == i + 3 || d == i + 5 {
                        assert(divides(2, d));
                        lemma_divides_transitive(2, d, m);
                    } else if d == i + 4 {
                        assert(divides(3, d));
                        lemma_divides_transitive(3, d, m);
                    }
                }
            }
        }
        i += 6;
    }
    proof {
        lemma_prime_by_sqrt(n as nat, root as nat, i as nat);
    }
    true
}

} // verus!
