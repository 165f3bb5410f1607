use cairo_air::extension::QM31;
use cairo_air::field::M31;
use cairo_air::mem::{MemConfig, MemEntry, MemoryBuilder};

#[test]
fn test_memory() {
    let entries = vec![
        MemEntry { addr: 0, val: [1; 4] },
        MemEntry { addr: 1, val: [6, 0, 0, 0] },
        MemEntry { addr: 2, val: [1, 2, 0, 0] },
        MemEntry { addr: 5, val: [1 << 30, 0, 0, 0] },
        MemEntry { addr: 8, val: [0x7FFF_FFFF, 0, 0, 0] },
        // Duplicates.
        MemEntry { addr: 100, val: [1; 4] },
        MemEntry { addr: 105, val: [1 << 30, 0, 0, 0] },
    ];

    let memory = MemoryBuilder::from_iter(MemConfig::default(), &entries).build();

    // Test non-duplicate entries.
    assert_eq!(
        QM31::from_parts(M31::new(1), M31::new(1), M31::new(1), M31::new(1)),
        memory.get(0).0
    );
    assert_eq!(M31::new(6), memory.get(1).0.a.a);
    assert_eq!(
        QM31::from_parts(M31::new(1), M31::new(2), M31::new(0), M31::new(0)),
        memory.get(2).0
    );
    assert_eq!(M31::new(1 << 30), memory.get(5).0.a.a);
    assert_eq!(M31::new(0x7FFF_FFFF), memory.get(8).0.a.a);

    // Test duplicates.
    assert_eq!(
        QM31::from_parts(M31::new(1), M31::new(1), M31::new(1), M31::new(1)),
        memory.get(100).0
    );
    assert_eq!(
        memory.address_to_value_index[0],
        memory.address_to_value_index[100]
    );

    assert_eq!(M31::new(1 << 30), memory.get(105).0.a.a);
    assert_eq!(
        memory.address_to_value_index[5],
        memory.address_to_value_index[105]
    );
}

#[test]
fn test_memory_inst_cache() {
    let entries = vec![MemEntry { addr: 0, val: [171, 0, 0, 0] }];
    let mut builder = MemoryBuilder::from_iter(MemConfig::default(), &entries);
    assert_eq!(builder.get_inst(0), 171);
    let memory = builder.build();
    assert_eq!(memory.get_inst(0), Some(171));
    assert_eq!(memory.get_inst(1), None);
}

#[test]
fn test_iter_values_pads_to_power_of_two() {
    let entries: Vec<MemEntry> = (0..10u32)
        .map(|i| MemEntry { addr: i, val: [i, 0, 0, 0] })
        .collect();
    let memory = MemoryBuilder::from_iter(MemConfig::default(), &entries).build();
    let values = memory.iter_values();
    assert_eq!(values.len(), 16);
    assert_eq!(values[3].0.a.a.value, 3);
    assert_eq!(values[12].0, QM31::zero());
}
