#[test]
#[allow(unused_variables, unused_assignments)]
fn basics() {
    let immutable: i32 = 5;
    let mut mutable: i32 = 6;
    mutable = 2;

    let spaces = "     ";
    let spaces: usize = spaces.len();

    let constant: u32 = 100_000;

    let tuple: (i32, f64, u8) = (500, 6.4, 1);
    let (t0, t1, t2) = tuple;
    assert_eq!(t0, tuple.0);
    assert_eq!(t1, tuple.1);
    assert_eq!(t2, tuple.2);

    let array: [i32; 5] = [3, 3, 3, 3, 3];
    assert_eq!([3; 5], array);
    let x: i32 = array[2];

    if 1 == 1 {}

    let if_expression: i32 = if 5 == 3 { 5 } else { 6 };

    let loop_result: i32 = loop {
        println!("infinite loop");
        break 5;
    };
    assert_eq!(loop_result, 5);

    for element in array.iter() {
        println!("the value is: {}", element);
    }

    for number in (1..4).rev() {
        println!("{}!", number);
    }
}
