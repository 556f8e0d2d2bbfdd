use cumem::{CuMatrixPtr, CuMatrixView, CuVector, DeviceError, DevicePtr};

#[test]
fn borrow() {
    let host = (0..15).collect::<Vec<i32>>();
    let mut vector = CuVector::new(0x1000, host.len());
    vector.copy_from_host(host.len()).unwrap();
    let mut view = CuMatrixView::new(3, 3, 3, 3);
    let m = view.borrow(&vector).unwrap();
    let mut read = Vec::new();
    for col in 0..m.cols() {
        for row in 0..m.rows() {
            let p = m.element(row, col);
            assert_eq!(p.alloc, 0x1000);
            read.push(host[p.offset]);
        }
    }
    assert_eq!(read, vec![3, 4, 5, 6, 7, 8, 9, 10, 11]);
}

#[test]
fn borrow_sets_pointer_at_offset() {
    let vector = CuVector::new(0x1000, 15);
    let mut view = CuMatrixView::new(3, 3, 3, 3);
    assert_eq!(view.len(), 9);
    let m = view.borrow(&vector).unwrap();
    assert_eq!(m.ptr(), Some(DevicePtr { alloc: 0x1000, offset: 3 }));
    assert_eq!((m.rows(), m.cols(), m.len(), m.leading_dimension()), (3, 3, 9, 3));
}

#[test]
fn borrow_on_a_slice_is_relative_to_it() {
    let vector = CuVector::new(0x1000, 20);
    let s = vector.slice(4, 10);
    let mut view = CuMatrixView::new(1, 2, 2, 4);
    let m = view.borrow(&s).unwrap();
    assert_eq!(m.ptr(), Some(DevicePtr { alloc: 0x1000, offset: 5 }));
    assert_eq!(m.element(1, 1).offset, 10);
}

#[test]
fn borrow_refuses_past_the_end() {
    let vector = CuVector::new(0x1000, 11);
    let mut view = CuMatrixView::new(3, 3, 3, 3);
    match view.borrow(&vector) {
        Err(DeviceError::OutOfBounds(m)) => {
            assert_eq!(m.left, 12);
            assert_eq!(m.right, 11);
            assert_eq!(m.right_name, "vector.len()");
        }
        other => panic!("unexpected {:?}", other.map(|_| ())),
    }
    let exact = CuVector::new(0x2000, 12);
    assert!(view.borrow(&exact).is_ok());
}

#[test]
fn borrow_mut_rebinds() {
    let mut a = CuVector::new(0x1000, 8);
    let mut b = CuVector::new(0x2000, 8);
    let mut view = CuMatrixView::new(2, 2, 3, 2);
    let pa = view.borrow_mut(&mut a).unwrap().ptr();
    assert_eq!(pa, Some(DevicePtr { alloc: 0x1000, offset: 2 }));
    let pb = view.borrow_mut(&mut b).unwrap().ptr();
    assert_eq!(pb, Some(DevicePtr { alloc: 0x2000, offset: 2 }));
    let mut short = CuVector::new(0x3000, 7);
    assert!(view.borrow_mut(&mut short).is_err());
}

#[test]
fn detached_pointer_keeps_its_shape() {
    let mut p = CuMatrixPtr::new(4, 5, DevicePtr { alloc: 0x1000, offset: 0 });
    assert_eq!((p.rows(), p.cols(), p.len()), (4, 5, 20));
    p.deref().ptr = DevicePtr { alloc: 0x1000, offset: 8 };
    assert_eq!(p.deref().ptr.offset, 8);
    assert_eq!(p.len(), 20);
}

#[test]
fn borrow_refuses_an_extent_past_usize() {
    let vector = CuVector::new(0, usize::MAX);
    let mut view = CuMatrixView::new(1, 1, 2, usize::MAX / 2 + 1);
    match view.borrow(&vector) {
        Err(DeviceError::OutOfBounds(m)) => {
            assert_eq!(m.left, usize::MAX);
            assert_eq!(m.right, usize::MAX);
        }
        other => panic!("unexpected {:?}", other.map(|_| ())),
    }
    let mut far = CuMatrixView::new(usize::MAX, 1, 1, 1);
    assert!(far.borrow(&vector).is_err());
    let mut edge = CuMatrixView::new(usize::MAX - 1, 1, 1, 1);
    assert_eq!(edge.borrow(&vector).unwrap().ptr().unwrap().offset, usize::MAX - 1);
}
