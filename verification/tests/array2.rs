use famicom::array2::Array2;
use famicom::rect::Rect;
use famicom::vec2::Vec2;
use famicom::x::range;

#[test]
fn it_put_array2() {
    let mut a = Array2::from_with_size(10, 10);
    a.put_array2(Vec2::new(3, 3), Array2::new(vec![vec![1; 2], vec![1; 2]]));
    assert_eq!(
        a,
        Array2::new(vec![
            vec![0, 0, 0, 0, 0, 0, 0, 0, 0, 0],
            vec![0, 0, 0, 0, 0, 0, 0, 0, 0, 0],
            vec![0, 0, 0, 0, 0, 0, 0, 0, 0, 0],
            vec![0, 0, 0, 1, 1, 0, 0, 0, 0, 0],
            vec![0, 0, 0, 1, 1, 0, 0, 0, 0, 0],
            vec![0, 0, 0, 0, 0, 0, 0, 0, 0, 0],
            vec![0, 0, 0, 0, 0, 0, 0, 0, 0, 0],
            vec![0, 0, 0, 0, 0, 0, 0, 0, 0, 0],
            vec![0, 0, 0, 0, 0, 0, 0, 0, 0, 0],
            vec![0, 0, 0, 0, 0, 0, 0, 0, 0, 0],
        ])
    )
}

#[test]
fn it_part_of() {
    let a = Array2::new(vec![
        vec![0, 0, 0, 0, 0, 0, 0, 0, 0, 0],
        vec![0, 0, 0, 0, 0, 0, 0, 0, 0, 0],
        vec![0, 0, 0, 0, 0, 0, 0, 0, 0, 0],
        vec![0, 0, 0, 1, 1, 0, 0, 0, 0, 0],
        vec![0, 0, 0, 1, 1, 0, 0, 0, 0, 0],
        vec![0, 0, 0, 0, 0, 0, 0, 0, 0, 0],
        vec![0, 0, 0, 0, 0, 0, 0, 0, 0, 0],
        vec![0, 0, 0, 0, 0, 0, 0, 0, 0, 0],
        vec![0, 0, 0, 0, 0, 0, 0, 0, 0, 0],
        vec![0, 0, 0, 0, 0, 0, 0, 0, 0, 0],
    ]);
    let b = a.part_of(Rect::from_pos_size(Vec2::new(3, 3), Vec2::new(2, 2)));
    assert_eq!(b, Array2::new(vec![vec![1, 1], vec![1, 1],]))
}

#[test]
fn array2_dimension_line_index_and_set() {
    let mut a: Array2<u8> = Array2::new(vec![vec![1, 2, 3], vec![4, 5, 6]]);
    assert_eq!(a.dimention(), Vec2::new(3, 2));
    assert_eq!(a.line(Vec2::new(1, 1), 2), &[5u8, 6]);
    assert_eq!(a.line(Vec2::new(0, 0), 0), &[] as &[u8]);
    assert_eq!(a[Vec2::new(2, 0)], 3);
    assert_eq!(a[[0, 1]], 4);
    a.set(Vec2::new(1, 0), 9);
    assert_eq!(a, Array2::new(vec![vec![1, 9, 3], vec![4, 5, 6]]));
}

#[test]
fn array2_of_no_rows() {
    let a: Array2<u8> = Array2::from_with_size(4, 0);
    assert_eq!(a, Array2::new(vec![]));
}

#[test]
fn array2_overlay_of_ragged_block() {
    let mut a: Array2<u8> = Array2::from_with_size(3, 2);
    a.put_array2(Vec2::new(1, 0), Array2::new(vec![vec![7], vec![8, 9]]));
    assert_eq!(a, Array2::new(vec![vec![0, 7, 0], vec![0, 8, 9]]));
}

#[test]
fn vec2_arithmetic() {
    let a = Vec2::new(6usize, 9usize);
    let b = Vec2::new(2usize, 3usize);
    assert_eq!(a + b, Vec2::new(8, 12));
    assert_eq!(a - b, Vec2::new(4, 6));
    assert_eq!(a / 2, Vec2::new(3, 4));
    assert_eq!(a * 3, Vec2::new(18, 27));
    assert_eq!(Vec2::<usize>::one(), Vec2::new(1, 1));
    assert_eq!(Vec2::<usize>::zero(), Vec2::new(0, 0));
    assert_eq!(a.x(), 6);
    assert_eq!(a.y(), 9);
    assert_eq!(a.xy(), (6, 9));
}

#[test]
fn rect_corners_and_extent() {
    let r = Rect::from_pos2(Vec2::new(2, 3), Vec2::new(10, 7));
    assert_eq!(r, Rect::from_pos_size(Vec2::new(2, 3), Vec2::new(8, 4)));
    assert_eq!((r.x(), r.y(), r.width(), r.height()), (2, 3, 8, 4));
    assert_eq!(r.pos(), Vec2::new(2, 3));
    assert_eq!(r.size(), Vec2::new(8, 4));
    assert_eq!(r.max_pos(), Vec2::new(10, 7));
    assert_eq!(r / 2, Rect::from_pos_size(Vec2::new(2, 3), Vec2::new(4, 2)));
}

#[test]
fn range_inside_and_moved() {
    assert!(range::inside(0..10, &(2..5)));
    assert!(!range::inside(0..10, &(2..10)));
    assert!(!range::inside(3..10, &(2..5)));
    assert!(range::inside(0..10, &(9..9)));
    assert_eq!(range::add(2..5usize, 10), 12..15);
    assert_eq!(range::sub(12..15usize, 10), 2..5);
}
