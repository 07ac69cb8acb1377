//! Example interfaces and their implementations, as the test suite uses
//! them: plain abstract contracts with and without default bodies, with
//! and without namespaces and generated callers, together with full and
//! partial implementations. The expansion model in the rest of the crate
//! is exercised on these shapes; here they also stand as ordinary,
//! directly callable Rust, so every expected value the symbol protocol
//! must reproduce is pinned down by a verified contract.

use vstd::prelude::*;

verus! {

/// A simple interface with basic methods.
pub trait SimpleIf {
    /// A simple function that returns a number.
    fn get_value() -> u32;

    /// A function that takes arguments.
    fn compute(a: u32, b: u32) -> u32
        requires
            a < 65536,
            b < 65536,
    ;

    /// A function that returns a string slice.
    fn get_name() -> &'static str;
}

/// An interface demonstrating the namespace option.
pub trait NamespacedIf {
    /// Get an identifier.
    fn get_id() -> i32;
}

/// An interface for which forwarding callers are generated.
pub trait CallerIf {
    /// A function that will have a forwarding caller generated.
    fn add_one(x: i32) -> i32
        requires
            x < 0x7fffffff,
    ;

    /// Another function with a forwarding caller.
    fn multiply(a: i32, b: i32) -> i32
        requires
            -32768 <= a <= 32767,
            -32768 <= b <= 32767,
    ;
}

/// An interface with both a namespace and generated callers.
pub trait AdvancedIf {
    /// Complex computation.
    fn process(input: u64) -> u64
        requires
            input < 0x100000000,
    ;
}

/// Implementation struct for [`SimpleIf`].
pub struct SimpleImpl;

impl SimpleIf for SimpleImpl {
    fn get_value() -> (r: u32)
        ensures
            r == 12345,
    {
        12345
    }

    fn compute(a: u32, b: u32) -> (r: u32)
        ensures
            r == a * b + 10,
    {
        proof {
            assert(a * b <= 65535 * 65535) by (nonlinear_arith)
                requires
                    a < 65536,
                    b < 65536,
            ;
        }
        a * b + 10
    }

    fn get_name() -> (r: &'static str)
        ensures
            r@ == "SimpleImpl"@,
    {
        "SimpleImpl"
    }
}

/// Implementation struct for [`NamespacedIf`].
pub struct NamespacedImpl;

impl NamespacedIf for NamespacedImpl {
    fn get_id() -> (r: i32)
        ensures
            r == 999,
    {
        999
    }
}

/// Implementation struct for [`CallerIf`].
pub struct CallerImpl;

impl CallerIf for CallerImpl {
    fn add_one(x: i32) -> (r: i32)
        ensures
            r == x + 1,
    {
        x + 1
    }

    fn multiply(a: i32, b: i32) -> (r: i32)
        ensures
            r == a * b,
    {
        proof {
            assert(-32768 * 32767 <= a * b <= 32768 * 32768) by (nonlinear_arith)
                requires
                    -32768 <= a <= 32767,
                    -32768 <= b <= 32767,
            ;
        }
        a * b
    }
}

/// Implementation struct for [`AdvancedIf`].
pub struct AdvancedImpl;

impl AdvancedIf for AdvancedImpl {
    fn process(input: u64) -> (r: u64)
        ensures
            r == input * 2 + 100,
    {
        input * 2 + 100
    }
}

/// A trait with some methods having default implementations: an
/// implementation may provide only the required methods and leave the
/// defaulted ones to their weak-linked fallbacks.
pub trait WeakDefaultIf {
    /// A required method.
    fn required_value() -> u32;

    /// A method with a default body.
    fn default_value() -> (r: u32)
        default_ensures
            r == 42,
    {
        42
    }

    /// A method with a default body that uses arguments.
    fn default_add(a: u32, b: u32) -> (r: u32)
        requires
            a < 65536,
            b < 65536,
        default_ensures
            r == a + b,
    {
        a + b
    }

    /// Another required method.
    fn required_name() -> &'static str;

    /// A default body returning a constant string.
    fn default_greeting() -> (r: &'static str)
        default_ensures
            r@ == "Hello from weak default!"@,
    {
        "Hello from weak default!"
    }
}

/// A trait where every method has a default body; an implementation may
/// be empty and still register itself.
pub trait AllDefaultIf {
    /// Default method one.
    fn method_a() -> (r: i32)
        default_ensures
            r == 100,
    {
        100
    }

    /// Default method two.
    fn method_b() -> (r: i32)
        default_ensures
            r == 200,
    {
        200
    }

    /// Default method with computation.
    fn method_c(x: i32) -> (r: i32)
        requires
            -0x40000000 <= x <= 0x3fffffff,
        default_ensures
            r == 2 * x,
    {
        x * 2
    }
}

/// A trait with a namespace and a default body.
pub trait NamespacedWeakIf {
    /// Required method.
    fn get_id() -> u64;

    /// Default method.
    fn get_default_multiplier() -> (r: u64)
        default_ensures
            r == 10,
    {
        10
    }
}

/// A trait with generated callers and a default body.
pub trait CallerWeakIf {
    /// Required method with a forwarding caller.
    fn compute(x: i64) -> i64
        requires
            -1000000000 <= x <= 1000000000,
    ;

    /// Default method with a forwarding caller.
    fn default_offset() -> (r: i64)
        default_ensures
            r == 1000,
    {
        1000
    }
}

/// A trait whose default bodies reach sibling methods through the
/// interface's own abstract self, so that an override of the sibling is
/// observed by the default body.
pub trait SelfRefIf {
    /// Base method with a default body; meant to be overridden.
    fn base_value() -> (r: u32)
        ensures
            r <= 0x7fffffff,
        default_ensures
            r == 100,
    {
        100
    }

    /// Derived method that reaches `base_value` through self.
    fn derived_value() -> u32 {
        Self::base_value() * 2
    }

    /// Derived method combining `base_value` with an argument.
    fn derived_with_offset(offset: u32) -> u32
        requires
            offset <= 0x80000000,
    {
        Self::base_value() + offset
    }

    /// Transform function that can be overridden.
    fn transform(v: i32) -> (r: i32)
        requires
            -1000 <= v <= 1000,
        ensures
            -10000 <= r <= 10000,
            -100 <= v <= 100 ==> -1000 <= r <= 1000,
        default_ensures
            r == v + 1,
    {
        v + 1
    }

    /// Method that reaches `transform` through self, as a value.
    fn call_via_ref(v: i32) -> i32
        requires
            -1000 <= v <= 1000,
    {
        let f = Self::transform;
        f(v)
    }

    /// Method that reaches `transform` through self twice over, as values.
    fn call_twice(v: i32) -> i32
        requires
            -100 <= v <= 100,
    {
        let f1 = Self::transform;
        let f2 = Self::transform;
        f2(f1(v))
    }

    /// Required method, so an implementation must register itself.
    fn required_id() -> u32;
}

/// Partial implementation of [`WeakDefaultIf`]: only the required methods
/// are provided; the defaulted ones fall back to their default bodies.
pub struct PartialOnlyImpl;

impl WeakDefaultIf for PartialOnlyImpl {
    fn required_value() -> (r: u32)
        ensures
            r == 5555,
    {
        5555
    }

    fn required_name() -> (r: &'static str)
        ensures
            r@ == "PartialOnlyImpl"@,
    {
        "PartialOnlyImpl"
    }
}

/// Partial implementation of [`SelfRefIf`] that overrides neither
/// `base_value` nor `transform`: every self-reference reaches the
/// defaults.
pub struct SelfRefPartialImpl;

impl SelfRefIf for SelfRefPartialImpl {
    fn required_id() -> (r: u32)
        ensures
            r == 1,
    {
        1
    }
}

/// Full implementation of [`WeakDefaultIf`]: every method is overridden,
/// including the defaulted ones.
pub struct FullImpl;

impl WeakDefaultIf for FullImpl {
    fn required_value() -> (r: u32)
        ensures
            r == 2000,
    {
        2000
    }

    fn required_name() -> (r: &'static str)
        ensures
            r@ == "FullImpl"@,
    {
        "FullImpl"
    }

    fn default_value() -> (r: u32)
        ensures
            r == 99,
    {
        99
    }

    fn default_add(a: u32, b: u32) -> (r: u32)
        ensures
            r == a * b,
    {
        proof {
            assert(a * b <= 65535 * 65535) by (nonlinear_arith)
                requires
                    a < 65536,
                    b < 65536,
            ;
        }
        a * b
    }

    fn default_greeting() -> (r: &'static str)
        ensures
            r@ == "Hello from FullImpl override!"@,
    {
        "Hello from FullImpl override!"
    }
}

/// Implementation of [`AllDefaultIf`] that overrides one method and
/// leaves the rest to their defaults.
pub struct AllDefaultImpl;

impl AllDefaultIf for AllDefaultImpl {
    fn method_a() -> (r: i32)
        ensures
            r == 111,
    {
        111
    }
}

/// Implementation of [`NamespacedWeakIf`].
pub struct NamespacedWeakImpl;

impl NamespacedWeakIf for NamespacedWeakImpl {
    fn get_id() -> (r: u64)
        ensures
            r == 12345,
    {
        12345
    }
}

/// Implementation of [`CallerWeakIf`].
pub struct CallerWeakImpl;

impl CallerWeakIf for CallerWeakImpl {
    fn compute(x: i64) -> (r: i64)
        ensures
            r == 3 * x,
    {
        x * 3
    }
}

/// Implementation of [`SelfRefIf`] that overrides both `base_value` and
/// `transform`, so that every self-reference in the default bodies must
/// observe the overrides.
pub struct SelfRefFullImpl;

impl SelfRefIf for SelfRefFullImpl {
    fn required_id() -> (r: u32)
        ensures
            r == 2,
    {
        2
    }

    fn base_value() -> (r: u32)
        ensures
            r == 500,
    {
        500
    }

    fn transform(v: i32) -> (r: i32)
        ensures
            r == 10 * v,
    {
        v * 10
    }
}

} // verus!
