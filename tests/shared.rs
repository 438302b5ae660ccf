use safe_mmio::fields::{ReadPure, ReadPureWrite};
use safe_mmio::{PhysicalInstance, SharedMmioPointer, UniqueMmioPointer};

struct Foo {
    a: ReadPureWrite<u32>,
    b: ReadPure<u32>,
}

#[test]
fn shared_fields() {
    let foo = Foo {
        a: ReadPureWrite(1),
        b: ReadPure(2),
    };
    let shared: SharedMmioPointer<Foo> = SharedMmioPointer::from(&foo);

    let shared_a: SharedMmioPointer<ReadPureWrite<u32>> = shared.child(|f| &f.a);
    assert_eq!(shared_a.read(), 1);
    assert_eq!(shared.child(|f| &f.a).read(), 1);

    let shared_b: SharedMmioPointer<ReadPure<u32>> = shared.child(|f| &f.b);
    assert_eq!(shared_b.read(), 2);
}

#[test]
fn shared_from_unique() {
    let mut foo = Foo {
        a: ReadPureWrite(1),
        b: ReadPure(2),
    };
    let unique: UniqueMmioPointer<Foo> = UniqueMmioPointer::from(&mut foo);

    let shared_a: SharedMmioPointer<ReadPureWrite<u32>> = unique.as_shared().child(|f| &f.a);
    assert_eq!(shared_a.read(), 1);

    let shared_b: SharedMmioPointer<ReadPure<u32>> = unique.as_shared().child(|f| &f.b);
    assert_eq!(shared_b.read(), 2);
}

#[test]
fn array_shared() {
    let foo = [ReadPure(1), ReadPure(2), ReadPure(3)];
    let shared = SharedMmioPointer::from(&foo);

    let parts = shared.split();
    assert_eq!(parts[0].read(), 1);
    assert_eq!(parts[1].read(), 2);
    assert_eq!(shared.split()[2].read(), 3);
}

#[test]
fn slice_shared() {
    let foo = [ReadPure(1), ReadPure(2), ReadPure(3)];
    let shared = SharedMmioPointer::from(foo.as_slice());

    assert!(shared.ptr() != 0);

    assert!(!shared.is_empty());
    assert_eq!(shared.len(), 3);

    let first: SharedMmioPointer<ReadPure<i32>> = shared.get(0).unwrap();
    assert_eq!(first.read(), 1);

    let second: SharedMmioPointer<ReadPure<i32>> = shared.get(1).unwrap();
    assert_eq!(second.read(), 2);

    assert!(shared.get(3).is_none());
}

#[test]
fn shared_split_addresses_follow_the_stride() {
    let foo = [ReadPure(7u16), ReadPure(8u16), ReadPure(9u16)];
    let shared = SharedMmioPointer::new(&foo);
    let base = shared.ptr();
    let parts = shared.split();
    assert_eq!(parts.len(), 3);
    for (i, part) in parts.iter().enumerate() {
        assert_eq!(part.ptr(), base + i * core::mem::size_of::<ReadPure<u16>>());
        assert_eq!(part.read(), 7 + i as u16);
    }
}

#[test]
fn shared_array_get_checks_bounds() {
    let foo = [ReadPure(1u32), ReadPure(2u32), ReadPure(3u32)];
    let shared = SharedMmioPointer::new(&foo);
    assert_eq!(shared.get(2).unwrap().read(), 3);
    assert!(shared.get(3).is_none());
}

#[test]
fn clones_reach_the_same_registers() {
    let foo = ReadPure(11u8);
    let shared = SharedMmioPointer::new(&foo);
    let copy = shared.clone();
    assert_eq!(copy.ptr(), shared.ptr());
    assert_eq!(copy.read(), 11);
    assert_eq!(copy.read_unsafe(), ReadPure(11));
}

#[test]
fn empty_shared_slice() {
    let foo: [ReadPure<u8>; 0] = [];
    let shared = SharedMmioPointer::from(foo.as_slice());
    assert!(shared.is_empty());
    assert!(shared.get(0).is_none());
}

#[test]
fn physical_instance_keeps_its_address() {
    let instance: PhysicalInstance<Foo> = PhysicalInstance::new(0x0900_0000);
    assert_eq!(instance.pa(), 0x0900_0000);
}

#[test]
fn equality_is_by_address() {
    let foo = [ReadPure(4u32), ReadPure(4u32)];
    let shared = SharedMmioPointer::new(&foo);
    let parts = shared.split();
    assert!(parts[0] == shared.get(0).unwrap());
    assert!(parts[0] != parts[1]);
    assert!(shared.clone() == shared);
}
