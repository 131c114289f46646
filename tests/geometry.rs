use spinning_square::geometry::{Point, Rectangle, Size};

#[test]
fn size_add_and_subtract() {
    let a = Size { width: 10, height: 20 };
    let b = Size { width: 3, height: 4 };
    assert_eq!(a.add(b), Size { width: 13, height: 24 });
    assert_eq!(a.subtract(b), Size { width: 7, height: 16 });
}

#[test]
fn point_add_subtract_to_size() {
    let a = Point { x: 5, y: -2 };
    let b = Point { x: 7, y: 3 };
    assert_eq!(a.add(b), Point { x: 12, y: 1 });
    assert_eq!(a.subtract(b), Point { x: -2, y: -5 });
    assert_eq!(a.subtract(b).to_size(), Size { width: -2, height: -5 });
}

#[test]
fn rectangle_empty() {
    let origin = Point { x: 0, y: 0 };
    assert!(Rectangle { origin, size: Size { width: 0, height: 0 } }.empty());
    assert!(Rectangle { origin, size: Size { width: -1, height: 0 } }.empty());
    assert!(!Rectangle { origin, size: Size { width: 0, height: 5 } }.empty());
    assert!(!Rectangle { origin, size: Size { width: 3, height: 5 } }.empty());
}
