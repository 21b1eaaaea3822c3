//! Small self-contained helpers: a width/height extent and a few basic
//! numeric functions.

use vstd::prelude::*;

verus! {

/// A width/height extent in whole pixels.
#[derive(Debug)]
pub struct Rectangle {
    pub width: u32,
    pub height: u32,
}

impl Rectangle {
    /// The area of the extent, in pixels.
    pub fn _area(&self) -> (r: u32)
        requires
            self.width * self.height <= u32::MAX,
        ensures
            r == self.width * self.height,
    {
        self.width * self.height
    }

    /// Whether another extent fits inside this one.
    pub fn _can_hold(&self, r: &Rectangle) -> (b: bool)
        ensures
            b == (r.width <= self.width && r.height <= self.height),
    {
        r.width <= self.width && r.height <= self.height
    }
}

/// Adds one to the value inside an `Option`, if any.
pub fn _add_one(x: Option<i32>) -> (r: Option<i32>)
    requires
        x matches Some(i) ==> i < i32::MAX,
    ensures
        match x {
            None => r is None,
            Some(i) => r matches Some(j) && j == i + 1,
        },
{
    match x {
        None => None,
        Some(i) => Some(i + 1),
    }
}

/// Returns an owned greeting; the owned `String` outlives the local scope
/// it was built in.
pub fn _get_dangling_pointer() -> (r: String)
    ensures
        r@ == "hello"@,
{
    let s = "hello".to_owned();
    return s;
}

/// The Fibonacci sequence as a mathematical function: 0, 1, 1, 2, 3, ...
pub open spec fn spec_fib(n: int) -> int
    decreases n,
{
    if n <= 0 {
        0
    } else if n == 1 {
        1
    } else {
        spec_fib(n - 2) + spec_fib(n - 1)
    }
}

proof fn lemma_fib_nonneg(i: int)
    ensures
        spec_fib(i) >= 0,
    decreases i,
{
    if i >= 2 {
        lemma_fib_nonneg(i - 2);
        lemma_fib_nonneg(i - 1);
    }
}

proof fn lemma_fib_monotonic(i: int, j: int)
    requires
        0 <= i <= j,
    ensures
        spec_fib(i) <= spec_fib(j),
    decreases j - i,
{
    if i < j {
        lemma_fib_monotonic(i, j - 1);
        lemma_fib_nonneg(j - 2);
    }
}

/// The `n`th Fibonacci number, with negative inputs mapped to zero.
pub fn _fibonacci(n: i32) -> (r: i32)
    requires
        spec_fib(n as int) <= i32::MAX,
    ensures
        r == spec_fib(n as int),
{
    if n < 0 {
        return 0;
    }

    if n <= 1 {
        return n;
    }

    let mut p: i32 = 0;
    let mut f: i32 = 1;
    let mut k: i32 = 1;
    while k < n
        invariant
            1 <= k <= n,
            f == spec_fib(k as int),
            p == spec_fib(k - 1),
            spec_fib(n as int) <= i32::MAX,
        decreases n - k,
    {
        proof {
            lemma_fib_nonneg(k - 1);
            lemma_fib_nonneg(k as int);
            lemma_fib_monotonic(k + 1, n as int);
        }
        let t = f + p;
        p = f;
        f = t;
        k = k + 1;
    }

    return f;
}

} // verus!
