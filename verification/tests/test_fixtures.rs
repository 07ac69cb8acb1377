//! The example interfaces called directly: the same values the symbol
//! protocol must reproduce, pinned down by the implementations themselves.

use crate_interface::fixtures::{
    AdvancedIf, AdvancedImpl, AllDefaultIf, AllDefaultImpl, CallerIf, CallerImpl, CallerWeakIf,
    CallerWeakImpl, FullImpl, NamespacedIf, NamespacedImpl, NamespacedWeakIf, NamespacedWeakImpl,
    PartialOnlyImpl, SelfRefIf, SelfRefFullImpl, SelfRefPartialImpl, SimpleIf, SimpleImpl,
    WeakDefaultIf,
};

#[test]
fn test_simple_fixtures() {
    assert_eq!(<SimpleImpl as SimpleIf>::get_value(), 12345);
    assert_eq!(<SimpleImpl as SimpleIf>::compute(10, 5), 60);
    assert_eq!(<SimpleImpl as SimpleIf>::get_name(), "SimpleImpl");
    assert_eq!(<NamespacedImpl as NamespacedIf>::get_id(), 999);
    assert_eq!(<CallerImpl as CallerIf>::add_one(41), 42);
    assert_eq!(<CallerImpl as CallerIf>::multiply(6, 7), 42);
    assert_eq!(<AdvancedImpl as AdvancedIf>::process(50), 200);
}

#[test]
fn test_weak_fixtures() {
    assert_eq!(<PartialOnlyImpl as WeakDefaultIf>::required_value(), 5555);
    assert_eq!(<PartialOnlyImpl as WeakDefaultIf>::required_name(), "PartialOnlyImpl");
    assert_eq!(<PartialOnlyImpl as WeakDefaultIf>::default_value(), 42);
    assert_eq!(<PartialOnlyImpl as WeakDefaultIf>::default_add(10, 20), 30);
    assert_eq!(
        <PartialOnlyImpl as WeakDefaultIf>::default_greeting(),
        "Hello from weak default!"
    );
    assert_eq!(<FullImpl as WeakDefaultIf>::required_value(), 2000);
    assert_eq!(<FullImpl as WeakDefaultIf>::required_name(), "FullImpl");
    assert_eq!(<FullImpl as WeakDefaultIf>::default_value(), 99);
    assert_eq!(<FullImpl as WeakDefaultIf>::default_add(10, 20), 200);
    assert_eq!(
        <FullImpl as WeakDefaultIf>::default_greeting(),
        "Hello from FullImpl override!"
    );
    assert_eq!(<AllDefaultImpl as AllDefaultIf>::method_a(), 111);
    assert_eq!(<AllDefaultImpl as AllDefaultIf>::method_b(), 200);
    assert_eq!(<AllDefaultImpl as AllDefaultIf>::method_c(5), 10);
    assert_eq!(<NamespacedWeakImpl as NamespacedWeakIf>::get_id(), 12345);
    assert_eq!(<NamespacedWeakImpl as NamespacedWeakIf>::get_default_multiplier(), 10);
    assert_eq!(<CallerWeakImpl as CallerWeakIf>::compute(7), 21);
    assert_eq!(<CallerWeakImpl as CallerWeakIf>::default_offset(), 1000);
}

#[test]
fn test_self_ref_fixtures() {
    assert_eq!(<SelfRefPartialImpl as SelfRefIf>::required_id(), 1);
    assert_eq!(<SelfRefPartialImpl as SelfRefIf>::base_value(), 100);
    assert_eq!(<SelfRefPartialImpl as SelfRefIf>::derived_value(), 200);
    assert_eq!(<SelfRefPartialImpl as SelfRefIf>::derived_with_offset(5), 105);
    assert_eq!(<SelfRefPartialImpl as SelfRefIf>::transform(5), 6);
    assert_eq!(<SelfRefPartialImpl as SelfRefIf>::call_via_ref(5), 6);
    assert_eq!(<SelfRefPartialImpl as SelfRefIf>::call_twice(5), 7);
    assert_eq!(<SelfRefFullImpl as SelfRefIf>::required_id(), 2);
    assert_eq!(<SelfRefFullImpl as SelfRefIf>::base_value(), 500);
    assert_eq!(<SelfRefFullImpl as SelfRefIf>::derived_value(), 1000);
    assert_eq!(<SelfRefFullImpl as SelfRefIf>::derived_with_offset(5), 505);
    assert_eq!(<SelfRefFullImpl as SelfRefIf>::transform(5), 50);
    assert_eq!(<SelfRefFullImpl as SelfRefIf>::call_via_ref(5), 50);
    assert_eq!(<SelfRefFullImpl as SelfRefIf>::call_twice(5), 500);
}
