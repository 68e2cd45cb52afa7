use std::cmp::Ordering;
use std::collections::hash_map::DefaultHasher;
use std::collections::HashSet;
use std::hash::{Hash, Hasher};
use tree_sitter_facade::Point;

fn hash_of(p: &Point) -> u64 {
    let mut hasher = DefaultHasher::new();
    p.hash(&mut hasher);
    hasher.finish()
}

#[test]
fn point_new_then_row_and_column() {
    let p = Point::new(3, 10);
    assert_eq!(p.row(), 3);
    assert_eq!(p.column(), 10);
}

#[test]
fn point_reads_back_at_the_limits() {
    let p = Point::new(u32::MAX, 0);
    assert_eq!(p.row(), u32::MAX);
    assert_eq!(p.column(), 0);
    let q = Point::new(0, u32::MAX);
    assert_eq!(q.row(), 0);
    assert_eq!(q.column(), u32::MAX);
}

#[test]
fn point_default_is_the_origin() {
    assert!(Point::default() == Point::new(0, 0));
    assert_eq!(Point::default().row(), 0);
    assert_eq!(Point::default().column(), 0);
}

#[test]
fn point_equality_goes_by_both_coordinates() {
    assert_eq!(Point::new(1, 2), Point::new(1, 2));
    assert_ne!(Point::new(1, 2), Point::new(1, 3));
    assert_ne!(Point::new(1, 2), Point::new(2, 2));
    assert_ne!(Point::new(1, 2), Point::new(2, 1));
}

#[test]
fn point_order_is_by_row_then_column() {
    assert!(Point::new(1, 9) < Point::new(2, 0));
    assert!(Point::new(2, 0) > Point::new(1, 9));
    assert!(Point::new(1, 2) < Point::new(1, 3));
    assert!(Point::new(1, 2) <= Point::new(1, 2));
    assert!(Point::new(1, 2) >= Point::new(1, 2));
    assert_eq!(Point::new(1, 2).partial_cmp(&Point::new(1, 2)), Some(Ordering::Equal));
    assert_eq!(Point::new(0, 7).partial_cmp(&Point::new(1, 0)), Some(Ordering::Less));
    assert_eq!(Point::new(4, 1).partial_cmp(&Point::new(4, 0)), Some(Ordering::Greater));
}

#[test]
fn point_order_agrees_with_the_order_of_pairs() {
    let values = [0u32, 1, 2, 7, u32::MAX];
    for r1 in values {
        for c1 in values {
            for r2 in values {
                for c2 in values {
                    let left = Point::new(r1, c1);
                    let right = Point::new(r2, c2);
                    assert_eq!(left.partial_cmp(&right), (r1, c1).partial_cmp(&(r2, c2)));
                    assert_eq!(left.cmp(&right), (r1, c1).cmp(&(r2, c2)));
                    assert_eq!(left == right, (r1, c1) == (r2, c2));
                }
            }
        }
    }
}

#[test]
fn point_sorts_like_the_engine_position() {
    let mut ours = vec![Point::new(2, 1), Point::new(0, 5), Point::new(2, 0), Point::new(1, 9)];
    let mut theirs: Vec<tree_sitter::Point> = ours.iter().map(|p| p.to_native()).collect();
    ours.sort();
    theirs.sort();
    let back: Vec<tree_sitter::Point> = ours.iter().map(|p| p.to_native()).collect();
    assert_eq!(back, theirs);
    assert_eq!(ours[0], Point::new(0, 5));
    assert_eq!(ours[3], Point::new(2, 1));
}

#[test]
fn equal_points_hash_equally() {
    assert_eq!(hash_of(&Point::new(3, 10)), hash_of(&Point::new(3, 10)));
    assert_eq!(hash_of(&Point::default()), hash_of(&Point::new(0, 0)));
    let mut set = HashSet::new();
    set.insert(Point::new(3, 10));
    assert!(set.contains(&Point::new(3, 10)));
    assert!(!set.contains(&Point::new(10, 3)));
}

#[test]
fn point_is_a_copy_value() {
    let p = Point::new(5, 6);
    let q = p;
    let r = p.clone();
    assert_eq!(p, q);
    assert_eq!(p, r);
}

#[test]
fn point_text_is_row_and_column_in_brackets() {
    assert_eq!(Point::new(3, 10).to_string(), "(3, 10)");
    assert_eq!(Point::default().to_string(), "(0, 0)");
    assert_eq!(Point::new(u32::MAX, 1).to_string(), "(4294967295, 1)");
    assert_eq!(Point::new(100, 9).to_string(), "(100, 9)");
}

#[test]
fn point_text_is_the_text_of_the_engine_position() {
    let p = Point::new(12, 345);
    assert_eq!(p.to_string(), format!("{}", tree_sitter::Point { row: 12, column: 345 }));
}

#[test]
fn point_debug_shows_both_fields() {
    let p = Point::new(3, 10);
    let text = format!("{:?}", p);
    assert_eq!(text, "Point { row: 3, column: 10 }");
    assert_eq!(text, format!("{:?}", tree_sitter::Point { row: 3, column: 10 }));
}

#[test]
fn point_to_native_keeps_the_coordinates() {
    let inner = Point::new(3, 10).to_native();
    assert_eq!(inner.row, 3);
    assert_eq!(inner.column, 10);
    let wide = Point::new(u32::MAX, u32::MAX).to_native();
    assert_eq!(wide.row, u32::MAX as usize);
    assert_eq!(wide.column, u32::MAX as usize);
}

#[test]
fn point_from_native_keeps_the_coordinates() {
    let p = Point::from_native(tree_sitter::Point { row: 7, column: 9 });
    assert_eq!(p, Point::new(7, 9));
    assert_eq!(Point::from_native(Point::new(1, 2).to_native()), Point::new(1, 2));
}

#[test]
fn point_try_from_native_takes_what_fits() {
    let p = Point::try_from_native(tree_sitter::Point { row: 7, column: 9 });
    assert_eq!(p, Some(Point::new(7, 9)));
    let max = u32::MAX as usize;
    let q = Point::try_from_native(tree_sitter::Point { row: max, column: max });
    assert_eq!(q, Some(Point::new(u32::MAX, u32::MAX)));
}

#[test]
fn point_try_from_native_refuses_what_does_not_fit() {
    let over = (u32::MAX as u64 + 1) as usize;
    if over as u64 == u32::MAX as u64 + 1 {
        assert_eq!(Point::try_from_native(tree_sitter::Point { row: over, column: 0 }), None);
        assert_eq!(Point::try_from_native(tree_sitter::Point { row: 0, column: over }), None);
        assert_eq!(
            Point::try_from_native(tree_sitter::Point { row: usize::MAX, column: usize::MAX }),
            None
        );
    }
}

fn shared_between_threads<T: Send + Sync>() -> bool {
    true
}

#[test]
fn point_can_be_shared_and_sent() {
    assert!(shared_between_threads::<Point>());
}
