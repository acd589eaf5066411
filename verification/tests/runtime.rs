// Runtime behaviour of the generated surface for a two-field record: the
// round trips per ownership mode and the independence of empty instances.

use projection::OptionProjectable;
use projection::Projectable;

struct Pair {
    a: u32,
    b: u32,
}

#[allow(non_camel_case_types)]
#[derive(Default)]
struct __projection_internal_Option_Pair_projected {
    a: Option<u32>,
    b: Option<u32>,
}

#[allow(non_camel_case_types)]
#[derive(Default)]
struct __projection_internal_Option_Pair_projected_ref<'a> {
    a: Option<&'a u32>,
    b: Option<&'a u32>,
}

#[allow(non_camel_case_types)]
#[derive(Default)]
struct __projection_internal_Option_Pair_projected_ref_mut<'a> {
    a: Option<&'a mut u32>,
    b: Option<&'a mut u32>,
}

impl From<Pair> for __projection_internal_Option_Pair_projected {
    fn from(f: Pair) -> Self {
        Self { a: Some(f.a), b: Some(f.b) }
    }
}

impl<'a> From<&'a Pair> for __projection_internal_Option_Pair_projected_ref<'a> {
    fn from(f: &'a Pair) -> Self {
        Self { a: Some(&f.a), b: Some(&f.b) }
    }
}

impl<'a> From<&'a mut Pair> for __projection_internal_Option_Pair_projected_ref_mut<'a> {
    fn from(f: &'a mut Pair) -> Self {
        Self { a: Some(&mut f.a), b: Some(&mut f.b) }
    }
}

impl OptionProjectable for Pair {
    type P = __projection_internal_Option_Pair_projected;
    fn project(f: Option<Self>) -> Self::P {
        match f {
            Some(t) => t.into(),
            None => Default::default(),
        }
    }
}

impl<'a> OptionProjectable for &'a Pair {
    type P = __projection_internal_Option_Pair_projected_ref<'a>;
    fn project(f: Option<Self>) -> Self::P {
        match f {
            Some(t) => t.into(),
            None => Default::default(),
        }
    }
}

impl<'a> OptionProjectable for &'a mut Pair {
    type P = __projection_internal_Option_Pair_projected_ref_mut<'a>;
    fn project(f: Option<Self>) -> Self::P {
        match f {
            Some(t) => t.into(),
            None => Default::default(),
        }
    }
}

#[test]
fn project_absent_yields_all_fields_absent() {
    let v: Option<Pair> = None;
    let p = v.project();
    assert_eq!(p.a, None);
    assert_eq!(p.b, None);
}

#[test]
fn project_present_by_value_yields_all_fields_present() {
    let p = Some(Pair { a: 1, b: 1 }).project();
    assert_eq!(p.a, Some(1));
    assert_eq!(p.b, Some(1));
}

#[test]
fn project_present_shared_reference() {
    let v = Some(Pair { a: 1, b: 1 });
    let p = v.as_ref().project();
    assert_eq!(p.a, Some(&1));
    assert_eq!(p.b, Some(&1));
}

#[test]
fn project_present_exclusive_reference_writes_through() {
    let mut v = Some(Pair { a: 1, b: 1 });
    {
        let p = v.as_mut().project();
        assert_eq!(p.b, Some(&mut 1));
        if let Some(a) = p.a {
            *a = 2;
        }
    }
    let original = v.unwrap();
    assert_eq!(original.a, 2);
    assert_eq!(original.b, 1);
}

#[test]
fn project_absent_reference_modes_yield_absent_fields() {
    let v: Option<Pair> = None;
    let shared = v.as_ref().project();
    assert_eq!(shared.a, None);
    assert_eq!(shared.b, None);

    let mut w: Option<Pair> = None;
    let exclusive = w.as_mut().project();
    assert_eq!(exclusive.a, None);
    assert_eq!(exclusive.b, None);
}

#[test]
fn empty_instances_are_equal_and_independent() {
    let v: Option<Pair> = None;
    let w: Option<Pair> = None;
    let mut first = v.project();
    let second = w.project();
    assert_eq!(first.a, second.a);
    assert_eq!(first.b, second.b);

    first.a = Some(5);
    assert_eq!(second.a, None);
    assert_eq!(second.b, None);
}
