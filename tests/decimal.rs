use triangular_arbitrage::decimal::{add_o, div_o, ge, gt, le, lt, min, mul_o, sub_o, Dec};

fn d(s: &str) -> Dec {
    Dec::from_str_exact(s).unwrap()
}

#[test]
fn parse_keeps_digits() {
    let x = d("50000.0");
    assert_eq!(x.mantissa(), 500000);
    assert_eq!(x.scale(), 1);
    assert!(Dec::from_str_exact("not a number").is_none());
    assert_eq!(d("-0.001").to_text(), "-0.001");
}

#[test]
fn arithmetic_goes_through_rust_decimal() {
    assert_eq!(add_o(Some(d("1.5")), Some(d("2.25"))).unwrap().to_text(), "3.75");
    assert_eq!(sub_o(Some(d("1.5")), Some(d("2.25"))).unwrap().to_text(), "-0.75");
    assert_eq!(mul_o(Some(d("1.5")), Some(d("2"))).unwrap().to_text(), "3.0");
    assert_eq!(div_o(Some(d("1")), Some(d("4"))).unwrap().to_text(), "0.25");
    assert!(div_o(Some(d("1")), Some(d("0"))).is_none());
    assert!(add_o(None, Some(d("1"))).is_none());
    let big = Dec::from_parts(0xFFFF_FFFF_FFFF_FFFF_FFFF_FFFF, 0).unwrap();
    assert!(add_o(Some(big), Some(big)).is_none());
}

#[test]
fn comparison_is_numeric() {
    assert!(le(&d("1.0"), &d("1")) && ge(&d("1.0"), &d("1")));
    assert!(gt(&d("0.5"), &d("0.05")));
    assert!(lt(&d("-0.5"), &d("-0.05")));
    assert!(!lt(&d("2"), &d("1.99")));
    assert_eq!(min(d("2.0"), d("2")).to_text(), "2.0");
    assert_eq!(d("-3.5").abs().to_text(), "3.5");
}

#[test]
fn parts_out_of_range_are_refused() {
    assert!(Dec::from_parts(1, 29).is_none());
    assert!(Dec::from_parts(i128::MAX, 0).is_none());
    assert!(Dec::from_parts(-5, 28).is_some());
}

#[test]
fn zero_operand_gives_the_other() {
    let zero = d("0.000");
    let x = d("1.5");
    let s = add_o(Some(zero), Some(x)).unwrap();
    assert_eq!((s.mantissa(), s.scale()), (15, 1));
    let s = add_o(Some(x), Some(zero)).unwrap();
    assert_eq!((s.mantissa(), s.scale()), (15, 1));
    let s = sub_o(Some(zero), Some(x)).unwrap();
    assert_eq!((s.mantissa(), s.scale()), (-15, 1));
    let p = mul_o(Some(zero), Some(x)).unwrap();
    assert_eq!((p.mantissa(), p.scale()), (0, 0));
}

#[test]
fn small_operands_are_exact() {
    let s = add_o(Some(d("1.5")), Some(d("2.25"))).unwrap();
    assert_eq!((s.mantissa(), s.scale()), (375, 2));
    let s = sub_o(Some(d("1.5")), Some(d("2.25"))).unwrap();
    assert_eq!((s.mantissa(), s.scale()), (-75, 2));
    let p = mul_o(Some(d("-1.5")), Some(d("0.02"))).unwrap();
    assert_eq!((p.mantissa(), p.scale()), (-30, 3));
}
