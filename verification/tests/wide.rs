use live_arb::wide::{distance, Wide};

#[test]
fn products_keep_all_digits() {
    let w = Wide::product(u128::MAX, u128::MAX);
    assert_eq!((w.high, w.low), (u128::MAX - 1, 1));
    let w = Wide::product(1 << 100, 1 << 100);
    assert_eq!((w.high, w.low), (1 << 72, 0));
    let w = Wide::product(12, 13);
    assert_eq!((w.high, w.low), (0, 156));
    assert_eq!(Wide::product(0, u128::MAX), Wide::zero());
    let w = Wide::product((1 << 64) + 3, (1 << 64) + 5);
    assert_eq!((w.high, w.low), (1, (8 << 64) + 15));
}

#[test]
fn sums_carry_over() {
    let a = Wide { high: 1, low: u128::MAX };
    let b = Wide { high: 2, low: 3 };
    assert_eq!(a.plus(b), Wide { high: 4, low: 2 });
    assert_eq!(b.plus(b), Wide { high: 4, low: 6 });
    assert!(a.less_than(b) && !b.less_than(a) && !a.less_than(a));
    assert!(Wide { high: 2, low: 2 }.less_than(b));
}

#[test]
fn distances_fit() {
    assert_eq!(distance(i128::MAX, i128::MIN), u128::MAX);
    assert_eq!(distance(i128::MIN, 0), 1 << 127);
    assert_eq!(distance(-7, -3), 4);
    assert_eq!(distance(5, -3), 8);
    assert_eq!(distance(4, 9), 5);
}
