use embedded_services::ecs::{LayerResult, ResultView0, ResultView1, ResultViewMut0};
use embedded_services::transformers::result::{
    Get, GetMut, Index0, Index1, Index2, Nested, Nested2, Nested3, View2, View3, ViewMut2,
};

#[test]
fn nested_get_finds_the_layer() {
    let a: Nested3<u8, u16, u32> = Nested::Head(1);
    let c: Nested3<u8, u16, u32> = Nested::Other(Nested::Other(Nested::Head(3)));
    assert_eq!(Get::<u8, Index0>::get(&a), Some(&1));
    assert_eq!(Get::<u16, Index1>::get(&a), None);
    assert_eq!(Get::<u32, Index2>::get(&c), Some(&3));
    assert_eq!(Get::<u8, Index0>::get(&c), None);
}

#[test]
fn nested_get_mut_writes_through() {
    let mut b: Nested2<u8, u16> = Nested::Other(Nested::Head(2));
    if let Some(x) = GetMut::<u16, Index1>::get_mut(&mut b) {
        *x = 20;
    }
    assert_eq!(Get::<u16, Index1>::get(&b), Some(&20));
    assert!(GetMut::<u8, Index0>::get_mut(&mut b).is_none());
}

#[test]
fn views_from_nested() {
    let b: Nested3<u8, u16, u32> = Nested::Other(Nested::Head(2));
    let view = View3::try_from(&b).ok().unwrap();
    assert_eq!(Get::<u16, Index1>::get(&view), Some(&2));
    assert_eq!(Get::<u8, Index0>::get(&view), None);
    let end: Nested2<u8, u16> = Nested::Other(Nested::Other(()));
    assert!(View2::try_from(&end).is_err());

    let mut m: Nested2<u8, u16> = Nested::Head(5);
    {
        let mut vm = ViewMut2::try_from(&mut m).ok().unwrap();
        if let Some(x) = GetMut::<u8, Index0>::get_mut(&mut vm) {
            *x = 6;
        }
    }
    assert_eq!(Get::<u8, Index0>::get(&m), Some(&6));
}

#[test]
fn ecs_result_views() {
    let r: LayerResult<u8, LayerResult<u16, ()>> = LayerResult::Rest(LayerResult::Head(9));
    let v = ResultView1::try_from(&r).ok().unwrap();
    assert_eq!(embedded_services::ecs::Get::<u16, embedded_services::ecs::Index1>::get(&v), Some(&9));
    let single: LayerResult<u8, ()> = LayerResult::Head(4);
    let v0 = ResultView0::try_from(&single).ok().unwrap();
    assert_eq!(embedded_services::ecs::Get::<u8, embedded_services::ecs::Index0>::get(&v0), Some(&4));
    let mut rest: LayerResult<u8, ()> = LayerResult::Rest(());
    assert!(ResultViewMut0::try_from(&mut rest).is_err());
}
