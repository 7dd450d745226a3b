use war_odds::curve::{table_columns, Columns, MARGIN};
use war_odds::field::HEADCOUNTS;

fn likely_at(headcounts: &[usize]) -> [bool; HEADCOUNTS] {
    let mut likely = [false; HEADCOUNTS];
    for headcount in headcounts {
        likely[*headcount] = true;
    }
    likely
}

fn scores_at(scores: &[(usize, usize)]) -> [usize; HEADCOUNTS] {
    let mut all = [0; HEADCOUNTS];
    for (headcount, score) in scores {
        all[*headcount] = *score;
    }
    all
}

#[test]
fn columns_run_from_first_to_last_likely_headcount() {
    let columns = table_columns(&likely_at(&[40, 41, 45, 60]), &scores_at(&[(45, 900), (41, 300)]));
    assert_eq!(columns, Columns { first: 40, last: 60, probable: 45, widened: false });
    let columns = table_columns(&likely_at(&[0, 100]), &scores_at(&[(0, 5000), (100, 4000)]));
    assert_eq!(columns, Columns { first: 0, last: 100, probable: 0, widened: false });
    let columns = table_columns(&likely_at(&[77]), &scores_at(&[(77, 9999)]));
    assert_eq!(columns, Columns { first: 77, last: 77, probable: 77, widened: false });
    let columns = table_columns(&likely_at(&[0, 3]), &scores_at(&[(3, 1)]));
    assert_eq!(columns, Columns { first: 0, last: 3, probable: 3, widened: false });
}

#[test]
fn columns_lie_around_the_most_probable_headcount_when_none_is_likely() {
    assert_eq!(MARGIN, 10);
    let columns = table_columns(&likely_at(&[]), &scores_at(&[(50, 80), (49, 70)]));
    assert_eq!(columns, Columns { first: 40, last: 60, probable: 50, widened: true });
    let columns = table_columns(&likely_at(&[]), &scores_at(&[(4, 80)]));
    assert_eq!(columns, Columns { first: 0, last: 14, probable: 4, widened: true });
    let columns = table_columns(&likely_at(&[]), &scores_at(&[(10, 80)]));
    assert_eq!(columns, Columns { first: 0, last: 20, probable: 10, widened: true });
    let columns = table_columns(&likely_at(&[]), &scores_at(&[(11, 80)]));
    assert_eq!(columns, Columns { first: 1, last: 21, probable: 11, widened: true });
    let columns = table_columns(&likely_at(&[]), &scores_at(&[(95, 80)]));
    assert_eq!(columns, Columns { first: 85, last: 100, probable: 95, widened: true });
    let columns = table_columns(&likely_at(&[]), &scores_at(&[(90, 80)]));
    assert_eq!(columns, Columns { first: 80, last: 100, probable: 90, widened: true });
}

#[test]
fn columns_lie_around_the_most_probable_headcount_when_only_zero_is_likely() {
    let columns = table_columns(&likely_at(&[0]), &scores_at(&[(0, 9000)]));
    assert_eq!(columns, Columns { first: 0, last: 10, probable: 0, widened: true });
    let columns = table_columns(&likely_at(&[0]), &scores_at(&[(0, 200), (30, 201)]));
    assert_eq!(columns, Columns { first: 20, last: 40, probable: 30, widened: true });
}

#[test]
fn of_equal_scores_the_last_is_the_most_probable() {
    let columns = table_columns(&likely_at(&[]), &scores_at(&[]));
    assert_eq!(columns, Columns { first: 90, last: 100, probable: 100, widened: true });
    let columns = table_columns(&likely_at(&[20, 30]), &scores_at(&[(20, 7), (25, 7), (30, 6)]));
    assert_eq!(columns, Columns { first: 20, last: 30, probable: 25, widened: false });
}
