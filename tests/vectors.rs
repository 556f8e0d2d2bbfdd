use cumem::{
    assert_eq_usize, assert_infeq_usize, CuDataType, CuVector, DeviceError, DevicePtr, Kernel,
    Launch, MemcpyKind,
};

const ALLOC0: usize = 0x1000;
const ALLOC1: usize = 0x2000;

fn assert_equals_float(a: f32, b: f32) {
    let d = a - b;
    if d < -0.000001 || d > 0.000001 {
        panic!("{} != {}", a, b);
    }
}

/// Device memory as the tests picture it: one host array per allocation.
struct Memory {
    blocks: Vec<(usize, Vec<f32>)>,
}

impl Memory {
    fn new() -> Memory {
        Memory { blocks: Vec::new() }
    }

    fn allocate(&mut self, base: usize, len: usize) -> CuVector {
        self.blocks.push((base, vec![0.0; len]));
        CuVector::new(base, len)
    }

    fn get(&self, p: DevicePtr, i: usize) -> f32 {
        let block = self.blocks.iter().find(|b| b.0 == p.alloc).unwrap();
        block.1[p.offset + i]
    }

    fn set(&mut self, p: DevicePtr, i: usize, v: f32) {
        let block = self.blocks.iter_mut().find(|b| b.0 == p.alloc).unwrap();
        block.1[p.offset + i] = v;
    }

    fn run(&mut self, l: &Launch, scalar: f32) {
        for i in 0..l.count as usize {
            let v = match l.kernel {
                Kernel::VectorSet => scalar,
                Kernel::VectorAddSclSelf => self.get(l.output, i) + scalar,
                Kernel::VectorScaleSelf => self.get(l.output, i) * scalar,
                Kernel::VectorAdd => self.get(l.operands[0], i) + self.get(l.operands[1], i),
                Kernel::VectorPMult => self.get(l.operands[0], i) * self.get(l.operands[1], i),
                Kernel::VectorSub => self.get(l.operands[0], i) - self.get(l.operands[1], i),
                Kernel::VectorSigmoid | Kernel::VectorSigmoidDeriv => unreachable!(),
            };
            self.set(l.output, i, v);
        }
    }

    fn read(&self, v: &CuVector) -> Vec<f32> {
        let t = v.copy_to_host(v.len()).unwrap();
        let src = t.src.unwrap();
        (0..t.count).map(|i| self.get(src, i)).collect()
    }
}

#[test]
fn init() {
    let value0 = -0.23254;
    let value1 = 1.1852;
    let mut mem = Memory::new();
    let mut vector = mem.allocate(ALLOC0, 5);

    let l = vector.init().unwrap();
    mem.run(&l, value0);
    let l = vector.slice_mut(1, 3).init().unwrap();
    mem.run(&l, value1);

    let output = mem.read(&vector);
    assert_equals_float(output[0], value0);
    assert_equals_float(output[1], value1);
    assert_equals_float(output[2], value1);
    assert_equals_float(output[3], value1);
    assert_equals_float(output[4], value0);
}

#[test]
fn add_self() {
    let value0 = -0.23254;
    let value1 = 1.185254;
    let mut mem = Memory::new();
    let mut vector0 = mem.allocate(ALLOC0, 5);
    let mut vector1 = mem.allocate(ALLOC1, 2);

    let l = vector0.init().unwrap();
    mem.run(&l, value0);
    let l = vector1.init().unwrap();
    mem.run(&l, value1);
    let l = vector0.slice_mut(2, 2).add_self(&vector1).unwrap();
    mem.run(&l, 0.0);

    let output = mem.read(&vector0);
    assert_equals_float(output[0], value0);
    assert_equals_float(output[1], value0);
    assert_equals_float(output[2], value0 + value1);
    assert_equals_float(output[3], value0 + value1);
    assert_equals_float(output[4], value0);
    assert_equals_float(output[2], 0.952714);
}

#[test]
fn slice_addresses_its_window() {
    let vector = CuVector::new(ALLOC0, 10);
    let s = vector.slice(3, 4);
    assert_eq!(s.len(), 4);
    assert_eq!(s.ptr(), DevicePtr { alloc: ALLOC0, offset: 3 });
    let inner = s.slice(1, 2);
    assert_eq!(inner.ptr(), DevicePtr { alloc: ALLOC0, offset: 4 });
    assert_eq!(vector.len(), 10);
    assert_eq!(vector.ptr(), DevicePtr { alloc: ALLOC0, offset: 0 });
}

#[test]
fn slice_mut_writes_only_its_window() {
    let mut mem = Memory::new();
    let mut vector = mem.allocate(ALLOC0, 6);
    let l = vector.slice_mut(2, 3).init().unwrap();
    assert_eq!(l.output, DevicePtr { alloc: ALLOC0, offset: 2 });
    assert_eq!(l.count, 3);
    mem.run(&l, 7.0);
    assert_eq!(mem.read(&vector), vec![0.0, 0.0, 7.0, 7.0, 7.0, 0.0]);
}

#[test]
fn slice_leaves_parent_intact() {
    let mut mem = Memory::new();
    let mut vector = mem.allocate(ALLOC0, 4);
    let l = vector.init().unwrap();
    mem.run(&l, 2.5);
    {
        let s = vector.slice(1, 2);
        assert_eq!(mem.read(&s), vec![2.5, 2.5]);
    }
    assert_eq!(vector.len(), 4);
    assert_eq!(mem.read(&vector), vec![2.5; 4]);
}

#[test]
fn in_place_scalar_kernels() {
    let mut mem = Memory::new();
    let mut vector = mem.allocate(ALLOC0, 3);
    let l = vector.init().unwrap();
    assert_eq!(l.kernel, Kernel::VectorSet);
    assert!(l.operands.is_empty());
    mem.run(&l, 1.0);
    let l = vector.add_scl_self().unwrap();
    assert_eq!(l.kernel, Kernel::VectorAddSclSelf);
    mem.run(&l, 2.0);
    let l = vector.scale_self().unwrap();
    assert_eq!(l.kernel, Kernel::VectorScaleSelf);
    mem.run(&l, 4.0);
    assert_eq!(mem.read(&vector), vec![12.0; 3]);
}

#[test]
fn pmult_self_and_static_ops() {
    let mut mem = Memory::new();
    let mut a = mem.allocate(ALLOC0, 2);
    let mut b = mem.allocate(ALLOC1, 2);
    let mut out = mem.allocate(0x3000, 2);
    let l = a.init().unwrap();
    mem.run(&l, 3.0);
    let l = b.init().unwrap();
    mem.run(&l, 5.0);
    let l = a.pmult_self(&b).unwrap();
    assert_eq!(l.kernel, Kernel::VectorPMult);
    assert_eq!(l.operands, vec![a.ptr(), b.ptr()]);
    mem.run(&l, 0.0);
    assert_eq!(mem.read(&a), vec![15.0, 15.0]);
    let l = CuVector::sub(&a, &b, &mut out).unwrap();
    assert_eq!(l.kernel, Kernel::VectorSub);
    assert_eq!(l.output, out.ptr());
    mem.run(&l, 0.0);
    assert_eq!(mem.read(&out), vec![10.0, 10.0]);
    let l = CuVector::pmult(&out, &b, &mut a).unwrap();
    mem.run(&l, 0.0);
    assert_eq!(mem.read(&a), vec![50.0, 50.0]);
}

#[test]
fn sigmoid_launches() {
    let v = CuVector::new(ALLOC0, 4);
    let mut out = CuVector::new(ALLOC1, 4);
    let l = CuVector::sigmoid(&v, &mut out).unwrap();
    assert_eq!(l.kernel, Kernel::VectorSigmoid);
    assert_eq!(l.operands, vec![v.ptr()]);
    assert_eq!(l.output, out.ptr());
    assert_eq!(l.count, 4);
    let l = CuVector::sigmoid_deriv(&v, &mut out).unwrap();
    assert_eq!(l.kernel, Kernel::VectorSigmoidDeriv);
    let mut short = CuVector::new(0x3000, 3);
    match CuVector::sigmoid(&v, &mut short) {
        Err(DeviceError::LengthMismatch(m)) => {
            assert_eq!(m.left_name, "vector.len()");
            assert_eq!(m.left, 4);
            assert_eq!(m.right_name, "output.len()");
            assert_eq!(m.right, 3);
        }
        other => panic!("unexpected {:?}", other),
    }
}

#[test]
fn add_self_length_mismatch() {
    let mut a = CuVector::new(ALLOC0, 5);
    let b = CuVector::new(ALLOC1, 3);
    match a.add_self(&b) {
        Err(DeviceError::LengthMismatch(m)) => {
            assert_eq!(m.left_name, "self.len()");
            assert_eq!(m.left, 5);
            assert_eq!(m.right_name, "right_op.len()");
            assert_eq!(m.right, 3);
        }
        other => panic!("unexpected {:?}", other),
    }
}

#[test]
fn sub_output_length_mismatch() {
    let a = CuVector::new(ALLOC0, 2);
    let b = CuVector::new(ALLOC1, 2);
    let mut out = CuVector::new(0x3000, 1);
    match CuVector::sub(&a, &b, &mut out) {
        Err(DeviceError::LengthMismatch(m)) => {
            assert_eq!(m.left_name, "left_op.len()");
            assert_eq!(m.right_name, "output.len()");
            assert_eq!((m.left, m.right), (2, 1));
        }
        other => panic!("unexpected {:?}", other),
    }
}

#[test]
fn count_too_large_for_kernel() {
    let len = (i32::MAX as usize) + 1;
    let mut v = CuVector::new(ALLOC0, len);
    match v.init() {
        Err(DeviceError::CountTooLarge { len: n }) => assert_eq!(n, len),
        other => panic!("unexpected {:?}", other),
    }
    let mut ok = CuVector::new(ALLOC1, i32::MAX as usize);
    assert_eq!(ok.init().unwrap().count, i32::MAX);
}

#[test]
fn host_copies_round_trip() {
    let mut v = CuVector::new(ALLOC0, 5);
    let up = v.copy_from_host(5).unwrap();
    assert_eq!(up.kind, MemcpyKind::HostToDevice);
    assert_eq!(up.dst, Some(DevicePtr { alloc: ALLOC0, offset: 0 }));
    assert_eq!(up.src, None);
    let down = v.copy_to_host(5).unwrap();
    assert_eq!(down.kind, MemcpyKind::DeviceToHost);
    assert_eq!(down.src, up.dst);
    assert_eq!(down.dst, None);
    assert_eq!(down.count, up.count);
    assert_eq!(up.count, 5);
}

#[test]
fn host_copy_length_mismatch() {
    let mut v = CuVector::new(ALLOC0, 5);
    match v.copy_from_host(4) {
        Err(DeviceError::LengthMismatch(m)) => {
            assert_eq!(m.left_name, "self.len()");
            assert_eq!(m.right_name, "data.len()");
            assert_eq!((m.left, m.right), (5, 4));
        }
        other => panic!("unexpected {:?}", other),
    }
    assert!(v.copy_to_host(6).is_err());
}

#[test]
fn device_copy() {
    let mut mem = Memory::new();
    let mut a = mem.allocate(ALLOC0, 3);
    let mut b = mem.allocate(ALLOC1, 3);
    let l = b.init().unwrap();
    mem.run(&l, 9.0);
    let t = a.copy_from_device(&b).unwrap();
    assert_eq!(t.kind, MemcpyKind::DeviceToDevice);
    assert_eq!(t.dst, Some(a.ptr()));
    assert_eq!(t.src, Some(b.ptr()));
    assert_eq!(t.count, 3);
    let short = CuVector::new(0x3000, 2);
    assert!(matches!(a.copy_from_device(&short), Err(DeviceError::LengthMismatch(_))));
}

#[test]
fn named_checks() {
    assert!(assert_eq_usize(3, "a", 3, "b").is_ok());
    let m = assert_eq_usize(3, "a", 4, "b").unwrap_err();
    assert_eq!((m.left_name.as_str(), m.left, m.right_name.as_str(), m.right), ("a", 3, "b", 4));
    assert!(assert_infeq_usize(3, "a", 3, "b").is_ok());
    assert!(assert_infeq_usize(2, "a", 3, "b").is_ok());
    let m = assert_infeq_usize(4, "a", 3, "b").unwrap_err();
    assert_eq!((m.left, m.right), (4, 3));
}

#[test]
fn zero_of_i32() {
    assert_eq!(<i32 as CuDataType>::zero(), 0);
}

#[test]
fn slice_mut_leaves_parent_handle() {
    let mut vector = CuVector::new(ALLOC0, 5);
    {
        let mut s = vector.slice_mut(1, 3);
        s.init().unwrap();
    }
    assert_eq!(vector.len(), 5);
    assert_eq!(vector.ptr(), DevicePtr { alloc: ALLOC0, offset: 0 });
    let t = vector.copy_to_host(5).unwrap();
    assert_eq!(t.src, Some(DevicePtr { alloc: ALLOC0, offset: 0 }));
    assert_eq!(t.count, 5);
}
