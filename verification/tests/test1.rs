// The generated surface for a two-field record, written out exactly as the
// generator's emitted definitions describe it, with the uniform `project()`
// dispatched through the library's capability traits.

use projection::OptionProjectable;
use projection::Projectable;

struct Test {
    a: u32,
    b: u32,
}

#[allow(non_camel_case_types)]
#[derive(Default)]
struct __projection_internal_Option_Test_projected {
    a: Option<u32>,
    b: Option<u32>,
}

#[allow(non_camel_case_types)]
#[derive(Default)]
struct __projection_internal_Option_Test_projected_ref<'a> {
    a: Option<&'a u32>,
    b: Option<&'a u32>,
}

#[allow(non_camel_case_types)]
#[derive(Default)]
struct __projection_internal_Option_Test_projected_ref_mut<'a> {
    a: Option<&'a mut u32>,
    b: Option<&'a mut u32>,
}

impl From<Test> for __projection_internal_Option_Test_projected {
    fn from(f: Test) -> Self {
        Self { a: Some(f.a), b: Some(f.b) }
    }
}

impl<'a> From<&'a Test> for __projection_internal_Option_Test_projected_ref<'a> {
    fn from(f: &'a Test) -> Self {
        Self { a: Some(&f.a), b: Some(&f.b) }
    }
}

impl<'a> From<&'a mut Test> for __projection_internal_Option_Test_projected_ref_mut<'a> {
    fn from(f: &'a mut Test) -> Self {
        Self { a: Some(&mut f.a), b: Some(&mut f.b) }
    }
}

impl OptionProjectable for Test {
    type P = __projection_internal_Option_Test_projected;
    fn project(f: Option<Self>) -> Self::P {
        match f {
            Some(t) => t.into(),
            None => Default::default(),
        }
    }
}

impl<'a> OptionProjectable for &'a Test {
    type P = __projection_internal_Option_Test_projected_ref<'a>;
    fn project(f: Option<Self>) -> Self::P {
        match f {
            Some(t) => t.into(),
            None => Default::default(),
        }
    }
}

impl<'a> OptionProjectable for &'a mut Test {
    type P = __projection_internal_Option_Test_projected_ref_mut<'a>;
    fn project(f: Option<Self>) -> Self::P {
        match f {
            Some(t) => t.into(),
            None => Default::default(),
        }
    }
}

#[test]
fn test1() {
    let mut a = Some(Test { a: 1, b: 1 });
    {
        let b = a.as_ref().project();
        assert_eq!(b.a, Some(&1));
    }
    {
        let mut b = a.as_mut().project();
        assert_eq!(b.a, Some(&mut 1));
        b.a.as_mut().map(|t| **t = 2);
        assert_eq!(b.a, Some(&mut 2));
    }

    let b = a.project();
    assert_eq!(b.a, Some(2));
}
