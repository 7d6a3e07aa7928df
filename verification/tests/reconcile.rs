use ding_reconcile::convert_to_q_over_2;
use ding_reconcile::ding_hint;
use ding_reconcile::extract;

#[test]
fn test_ding_hint() {
    // first quartile
    assert_eq!(0, ding_hint(0, 31));
    assert_eq!(0, ding_hint(1, 31));

    // second quartile
    assert_eq!(1, ding_hint(8, 31));
    assert_eq!(1, ding_hint(9, 31));

    assert_eq!(1, ding_hint(14, 31));
    assert_eq!(1, ding_hint(15, 31));

    // third quartile
    assert_eq!(1, ding_hint(-14, 31));
    assert_eq!(1, ding_hint(-15, 31));

    // fourth quartile
    assert_eq!(0, ding_hint(-2, 31));
    assert_eq!(0, ding_hint(-1, 31));
}

#[test]
fn test_convert_to_q_over_2() {
    let res: Vec<i32> = convert_to_q_over_2(31);

    // Ensure that the correct q/4 buckets were created, partitioning the
    // number line

    // first quartile
    assert_eq!(res[0], 0);
    assert_eq!(res[1], 1);

    // second quartile
    assert_eq!(res[8], 8);
    assert_eq!(res[9], 9);

    // third quartile
    assert_eq!(res[16], -15);
    assert_eq!(res[17], -14);

    // fourth quartile
    assert_eq!(res[29], -2);
    assert_eq!(res[30], -1);
}

#[test]
fn test_extract_prime_one() {
    // ensure that two independent values round to the same bit
    // Subject to the constraints:
    // The error term |x-y| must be even and less than (q/4) - 2

    // test values that naively would round to different values.

    let q: i32 = 31;

    {
        let x: i32 = 6;
        let y: i32 = 8;

        // test these in both directions
        let x_hint: i32 = ding_hint(x, q);
        let y_hint: i32 = ding_hint(y, q);
        {
            let rounded_x: i32 = extract(x, x_hint, q);
            let rounded_y: i32 = extract(y, x_hint, q);
            assert_eq!(rounded_x, rounded_y);
        }
        {
            let rounded_x: i32 = extract(x, y_hint, q);
            let rounded_y: i32 = extract(y, y_hint, q);
            assert_eq!(rounded_x, rounded_y);
        }
    }
    {
        let x: i32 = 5;
        let y: i32 = 7;
        let x_hint: i32 = ding_hint(x, q);
        let y_hint: i32 = ding_hint(y, q);
        {
            let rounded_x: i32 = extract(x, x_hint, q);
            let rounded_y: i32 = extract(y, x_hint, q);
            assert_eq!(rounded_x, rounded_y);
        }
        {
            let rounded_x: i32 = extract(x, y_hint, q);
            let rounded_y: i32 = extract(y, y_hint, q);
            assert_eq!(rounded_x, rounded_y);
        }
    }
    {
        let x: i32 = 7;
        let y: i32 = 11;
        let x_hint: i32 = ding_hint(x, q);
        let rounded_x: i32 = extract(x, x_hint, q);
        let rounded_y: i32 = extract(y, x_hint, q);
        assert_eq!(rounded_x, rounded_y);
    }
}
