use vstd::prelude::*;
use vstd::arithmetic::div_mod::{lemma_fundamental_div_mod, lemma_mod_multiples_basic};

verus! {

/// The fixed catalogue of workloads a session can run.
#[derive(Clone, Copy, Debug, PartialEq, Eq, Structural)]
pub enum Stressor {
    Fibonacci,
    Primes,
    MatrixMultiplication,
    FloatAddition,
    FloatMultiplication,
    FloatDivision,
    SquareRoot,
    InverseSquareRoot,
}

/// The display name of each workload.
pub open spec fn stressor_name(s: Stressor) -> Seq<char> {
    match s {
        Stressor::Fibonacci => "Fibonacci"@,
        Stressor::Primes => "Primes"@,
        Stressor::MatrixMultiplication => "Matrix Multiplication"@,
        Stressor::FloatAddition => "Float Addition"@,
        Stressor::FloatMultiplication => "Float Multiplication"@,
        Stressor::FloatDivision => "Float Division"@,
        Stressor::SquareRoot => "Square Root"@,
        Stressor::InverseSquareRoot => "Inverse Square Root"@,
    }
}

impl Stressor {
    pub fn name(&self) -> (r: &'static str)
        ensures
            r@ == stressor_name(*self),
    {
        match self {
            Stressor::Fibonacci => "Fibonacci",
            Stressor::Primes => "Primes",
            Stressor::MatrixMultiplication => "Matrix Multiplication",
            Stressor::FloatAddition => "Float Addition",
            Stressor::FloatMultiplication => "Float Multiplication",
            Stressor::FloatDivision => "Float Division",
            Stressor::SquareRoot => "Square Root",
            Stressor::InverseSquareRoot => "Inverse Square Root",
        }
    }
}


/// Rounds of the Fibonacci, float and square-root workloads.
pub const WORKLOAD_ROUNDS: u64 = 10_000_000;

/// Upper bound (exclusive) of the numbers the prime workload tests.
pub const PRIME_LIMIT: i32 = 100_000;

/// Side of the square matrices the matrix workload multiplies.
pub const MATRIX_DIM: usize = 100;

/// Products the matrix workload computes per call.
pub const MATRIX_ROUNDS: usize = 100;

/// Relies on std::hint::black_box: an identity function that the optimiser must
/// treat as opaque, so that a workload's arithmetic is really carried out.
#[verifier::external_body]
fn opaque<T>(x: T) -> (r: T)
    ensures
        r == x,
{
    std::hint::black_box(x)
}

/// Multiplies up the integers below `amount`, with 128-bit wrapping arithmetic.
pub fn factorial_cpu(amount: u128) {
    let mut result: u128 = 1;
    let mut i: u128 = 1;
    while i < amount
        decreases amount - i,
    {
        result = opaque(result.wrapping_mul(i));
        i = i + 1;
    }
}

/// Steps the Fibonacci recurrence, with 64-bit wrapping arithmetic.
pub fn fibonacci_cpu() {
    let mut a: u64 = 0;
    let mut b: u64 = 1;
    for _round in 0..WORKLOAD_ROUNDS {
        let c = opaque(a.wrapping_add(b));
        a = opaque(b);
        b = opaque(c);
    }
}

/// Whether `n` is a prime number.
pub open spec fn is_prime_number(n: int) -> bool {
    n >= 2 && forall|d: int| 2 <= d < n ==> #[trigger] (n % d) != 0
}

proof fn lemma_odd_has_no_even_divisor(n: int, e: int)
    requires
        n >= 1,
        n % 2 == 1,
        e >= 2,
        e % 2 == 0,
    ensures
        n % e != 0,
{
    if n % e == 0 {
        lemma_fundamental_div_mod(n, e);
        lemma_fundamental_div_mod(e, 2);
        let q = n / e;
        let h = e / 2;
        assert(n == (h * q) * 2) by (nonlinear_arith)
            requires
                n == e * q + 0,
                e == 2 * h + 0,
        ;
        lemma_mod_multiples_basic(h * q, 2);
    }
}

/// A divisor of `n` at or above `i`, where `n < i * i`, has a cofactor that
/// divides `n` and lies strictly between one and `i`.
proof fn lemma_small_cofactor(n: int, d: int, i: int) -> (q: int)
    requires
        2 <= d < n,
        n % d == 0,
        1 <= i <= d,
        n < i * i,
    ensures
        2 <= q < i,
        n % q == 0,
{
    lemma_fundamental_div_mod(n, d);
    let q = n / d;
    assert(n == d * q);
    assert(q >= 2) by (nonlinear_arith)
        requires
            n == d * q,
            2 <= d < n,
    ;
    assert(q < i) by (nonlinear_arith)
        requires
            n == d * q,
            1 <= i <= d,
            n < i * i,
            q >= 2,
    ;
    lemma_mod_multiples_basic(d, q);
    assert(d * q == q * d) by (nonlinear_arith);
    q
}

/// Trial division by two and by the odd numbers up to the square root.
pub fn is_prime(n: i32) -> (r: bool)
    requires
        n >= 2,
    ensures
        r == is_prime_number(n as int),
{
    let n64 = n as u64;
    if n64 == 2 {
        return true;
    }
    if n64 % 2 == 0 {
        assert((n as int) % 2 == 0);
        return false;
    }
    let mut i: u64 = 3;
    while i * i <= n64
        invariant
            n64 == n,
            3 <= n,
            n64 % 2 == 1,
            3 <= i <= 46343,
            i * i <= 46343 * 46343,
            i % 2 == 1,
            forall|d: int| 2 <= d < i ==> #[trigger] ((n as int) % d) != 0,
        decreases n64 + 2 - i,
    {
        assert(i <= 46341) by (nonlinear_arith)
            requires
                i * i <= n64,
                n64 <= 0x7fff_ffff,
                3 <= i,
        ;
        assert(i < n) by (nonlinear_arith)
            requires
                i * i <= n64,
                n64 == n,
                3 <= i,
        ;
        if n64 % i == 0 {
            assert((n as int) % (i as int) == 0);
            return false;
        }
        proof {
            lemma_odd_has_no_even_divisor(n as int, i + 1);
        }
        i = i + 2;
        assert(i * i <= 46343 * 46343) by (nonlinear_arith)
            requires
                3 <= i <= 46343,
        ;
    }
    assert forall|d: int| 2 <= d < n implies #[trigger] ((n as int) % d) != 0 by {
        if d >= i && (n as int) % d == 0 {
            let q = lemma_small_cofactor(n as int, d, i as int);
            assert((n as int) % q != 0);
        }
    }
    true
}

/// Counts the primes below the workload's limit.
pub fn primes() {
    let mut found: u32 = 0;
    let mut n: i32 = 2;
    while n < PRIME_LIMIT
        invariant
            2 <= n <= PRIME_LIMIT,
            found < n,
        decreases PRIME_LIMIT - n,
    {
        if is_prime(n) {
            found = found + 1;
        }
        n = n + 1;
    }
    opaque(found);
}

fn cell(row: usize, col: usize) -> (r: usize)
    requires
        row < MATRIX_DIM,
        col < MATRIX_DIM,
    ensures
        r == row * MATRIX_DIM + col,
        r < MATRIX_DIM * MATRIX_DIM,
{
    row * MATRIX_DIM + col
}

/// Multiplies a square matrix by itself, over and over, with 64-bit wrapping
/// integer arithmetic. The matrix is stored row by row.
pub fn matrix_multiplication() {
    let mut matrix: Vec<u64> = Vec::new();
    for i in 0..MATRIX_DIM
        invariant
            matrix@.len() == i * MATRIX_DIM,
    {
        for j in 0..MATRIX_DIM
            invariant
                i < MATRIX_DIM,
                matrix@.len() == i * MATRIX_DIM + j,
        {
            matrix.push((i as u64).wrapping_mul(j as u64));
        }
    }
    for _round in 0..MATRIX_ROUNDS
        invariant
            matrix@.len() == MATRIX_DIM * MATRIX_DIM,
    {
        let mut result: Vec<u64> = Vec::new();
        for i in 0..MATRIX_DIM
            invariant
                matrix@.len() == MATRIX_DIM * MATRIX_DIM,
        {
            for j in 0..MATRIX_DIM
                invariant
                    i < MATRIX_DIM,
                    matrix@.len() == MATRIX_DIM * MATRIX_DIM,
            {
                let mut acc: u64 = 0;
                for k in 0..MATRIX_DIM
                    invariant
                        i < MATRIX_DIM,
                        j < MATRIX_DIM,
                        matrix@.len() == MATRIX_DIM * MATRIX_DIM,
                {
                    let product = matrix[cell(i, k)].wrapping_mul(matrix[cell(k, j)]);
                    acc = acc.wrapping_add(product);
                }
                result.push(acc);
            }
        }
        opaque(result);
    }
}

} // verus!
