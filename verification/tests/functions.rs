#[test]
fn lib_composed_types_work() {
    let f1 = |x: i32| x;
    let f2 = |x: Box<dyn Fn(i32) -> i32>, y: i32| x(y);
    println!("{:?}", f2(Box::new(f1), 1));

    let f4 = |f: &dyn Fn(i32) -> i32, x: i32| f(x);
    println!("{:?}", f4(&f1, 1));

    let f5 = |x: i32| move |y: i32| x * y;
    println!("{:?}", f5(5)(4));
}

#[test]
fn sample_composed_types_work() {
    let f1 = |x: i32| x;
    let f2 = |x: Box<dyn Fn(i32) -> i32>, y: i32| x(y);
    println!("{:?}", f2(Box::new(f1), 1));

    let f4 = |f: &dyn Fn(i32) -> i32, x: i32| f(x);
    println!("{:?}", f4(&f1, 1));

    let f5 = |x: i32| move |y: i32| x * y;
    println!("{:?}", f5(5)(4));
}
