use pong::score::{Score, Side};

#[test]
fn new_score_is_nil_nil() {
    let s = Score::new();
    assert_eq!(s.count(Side::Left), 0);
    assert_eq!(s.count(Side::Right), 0);
}

#[test]
fn award_counts_one_on_the_side_given() {
    let mut s = Score::new();
    s.award(Side::Left);
    assert_eq!(s, Score { left: 1, right: 0 });
    s.award(Side::Right);
    s.award(Side::Right);
    assert_eq!(s, Score { left: 1, right: 2 });
    assert_eq!(s.count(Side::Left), 1);
    assert_eq!(s.count(Side::Right), 2);
}

#[test]
fn award_reaches_the_greatest_count() {
    let mut s = Score { left: usize::MAX - 1, right: 3 };
    s.award(Side::Left);
    assert_eq!(s, Score { left: usize::MAX, right: 3 });
}
