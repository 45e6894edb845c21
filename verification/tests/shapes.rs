use blockfall::orientation::ORIENTATION_COUNT;
use blockfall::{
    Axis, Bitfield, BoundingBox, Catalog, Direction, Orientation, Polarity, Rotation, Shape,
    ShapeId, Tetromino,
};

fn variants() -> [Tetromino; 8] {
    [
        Tetromino::I,
        Tetromino::O,
        Tetromino::T,
        Tetromino::L,
        Tetromino::S,
        Tetromino::B,
        Tetromino::D,
        Tetromino::F,
    ]
}

#[test]
fn canonical() {
    let variant = Tetromino::I;
    let bitfield = Bitfield::canonical(variant);

    let bitboards = bitfield.compute_bitboards();

    for i in 0..bitboards.len() {
        println!("{:#x}", bitboards[i]);
    }
    assert_eq!(bitfield.value, 0x0400_0400_0400_0400);
    assert_eq!(bitboards, [1 << 18, 1 << 18, 1 << 18, 1 << 18]);
}

#[test]
fn rotation() {
    let old_bitfield = Bitfield::canonical(Tetromino::L);

    println!("Old bitfield: {:#x}", old_bitfield.value);

    let new_bitfield =
        old_bitfield.rotate(Direction { axis: Axis::X, polarity: Polarity::Positive }, 3);

    println!("New bitfield: {:#x}", new_bitfield.value);
    assert_eq!(old_bitfield.value, 0x0220_0020_0020);
    assert_eq!(new_bitfield.value, 0x0222_0200);
}

#[test]
fn size() {
    println!("{}", std::mem::size_of::<Shape>() * ORIENTATION_COUNT);
}

#[test]
fn shape_it_works() {
    let catalog = Catalog::new();
    let variant = Tetromino::L;
    let shape_id = ShapeId::from((
        variant,
        Orientation::from((Direction::from((Polarity::Negative, Axis::Y)), Rotation::Prime)),
    ));

    let shape: &Shape = catalog.shape(&shape_id);
    let &Shape { bitfield, .. } = shape;

    println!("{:#x}", bitfield.value);
    assert_eq!(bitfield.value, 0x20_0020_0220);
}

#[test]
fn bitfield_index_and_cells() {
    assert_eq!(Bitfield::index(1, 2, 3), 1 + 32 + 12);
    let field = Bitfield { value: 1 << 45 };
    assert!(field.is_filled(1, 2, 3));
    assert!(!field.is_filled(3, 2, 1));
    assert!(!Bitfield { value: 0 }.is_filled(0, 0, 0));
}

#[test]
fn canonical_shapes_and_sizes() {
    let expected: [(u64, usize); 8] = [
        (0x0400_0400_0400_0400, 4),
        (0x0033_0000, 2),
        (0x0020_0070_0000, 3),
        (0x0220_0020_0020, 3),
        (0x0060_0030_0000, 3),
        (0x0020_0032, 2),
        (0x0020_0023, 2),
        (0x0020_0031, 2),
    ];
    for (variant, (value, size)) in variants().iter().zip(expected.iter()) {
        assert_eq!(Bitfield::canonical(*variant).value, *value);
        assert_eq!(Bitfield::rotation_size(*variant), *size);
    }
}

#[test]
fn rotate_keeps_the_number_of_cells() {
    for variant in variants() {
        let size = Bitfield::rotation_size(variant);
        let shape = Bitfield::canonical(variant);
        for index in 0..6 {
            let turned = shape.rotate(Direction::from_combination(index), size);
            assert_eq!(turned.value.count_ones(), 4);
        }
    }
}

#[test]
fn rotate_four_times_is_the_same_shape() {
    for variant in variants() {
        let size = Bitfield::rotation_size(variant);
        let shape = Bitfield::canonical(variant);
        for index in 0..6 {
            let around = Direction::from_combination(index);
            let mut turned = shape;
            for _ in 0..4 {
                turned = turned.rotate(around, size);
            }
            assert_eq!(turned.value, shape.value);
            assert_eq!(shape.rotate(around, size).rotate(around.opposite(), size).value, shape.value);
        }
    }
}

#[test]
fn bitboards_of_a_turned_shape() {
    let field = Bitfield { value: 0x20_0220_0020 };
    assert_eq!(field.compute_bitboards(), [512, 131584, 512, 0]);
    let bounds: BoundingBox = field.compute_bounding_box();
    assert_eq!(bounds.start, [1, 0, 1]);
    assert_eq!(bounds.end, [1, 2, 2]);
    assert_eq!(bounds.size(), [1, 3, 2]);
}

#[test]
fn bounding_box_of_an_empty_shape() {
    let bounds = Bitfield { value: 0 }.compute_bounding_box();
    assert_eq!(bounds.start, [4, 4, 4]);
    assert_eq!(bounds.end, [0, 0, 0]);
}

#[test]
fn bounding_box_of_the_whole_cube() {
    let bounds = Bitfield { value: u64::MAX }.compute_bounding_box();
    assert_eq!(bounds.start, [0, 0, 0]);
    assert_eq!(bounds.end, [3, 3, 3]);
    assert_eq!(Bitfield { value: u64::MAX }.compute_bitboards(), [0x0f0f_0f0f; 4]);
}

#[test]
fn shape_from_bitfield() {
    let shape = Shape::from(Bitfield::canonical(Tetromino::O));
    assert_eq!(shape.bitboards, [0, 771, 0, 0]);
    assert_eq!(shape.bounding_box.start, [0, 1, 0]);
    assert_eq!(shape.bounding_box.end, [1, 1, 1]);
    assert_eq!(shape.size(), [2, 1, 2]);
}

#[test]
fn shape_id_combination_and_default() {
    let id = ShapeId::from(Tetromino::T);
    assert_eq!(id.orientation, Orientation::default());
    assert_eq!(id.combination(), 8 + 2 * 24);
    let last = ShapeId::from((Tetromino::F, Orientation::from_combination(23)));
    assert_eq!(last.combination(), 191);
}

#[test]
fn shape_id_rotation_returns_after_four_turns() {
    for variant in variants() {
        for orientation in 0..ORIENTATION_COUNT {
            let id = ShapeId::from((variant, Orientation::from_combination(orientation)));
            for index in 0..6 {
                let around = Direction::from_combination(index);
                let turned = id.rotate(around).rotate(around).rotate(around).rotate(around);
                assert_eq!(turned, id);
                assert_eq!(id.rotate(around).variant, variant);
            }
        }
    }
}

#[test]
fn catalog_entries_are_total() {
    let catalog = Catalog::new();
    for variant in variants() {
        let size = Bitfield::rotation_size(variant);
        for orientation in 0..ORIENTATION_COUNT {
            let id = ShapeId::from((variant, Orientation::from_combination(orientation)));
            let shape = catalog.shape(&id);
            assert_eq!(shape.bitfield.value.count_ones(), 4);
            for axis in 0..3 {
                assert!(shape.bounding_box.start[axis] <= shape.bounding_box.end[axis]);
                assert!(shape.bounding_box.end[axis] < size);
            }
            assert_eq!(shape.bitboards, shape.bitfield.compute_bitboards());
        }
    }
}

#[test]
fn catalog_reference_entries_are_canonical() {
    let catalog = Catalog::new();
    for variant in variants() {
        let shape = catalog.shape(&ShapeId::from(variant));
        assert_eq!(shape.bitfield.value, Bitfield::canonical(variant).value);
    }
}

#[test]
fn catalog_chosen_entries() {
    let catalog = Catalog::new();
    let at = |polarity, axis, rotation| Orientation {
        direction: Direction { polarity, axis },
        rotation,
    };
    let line = ShapeId::from((Tetromino::I, at(Polarity::Positive, Axis::X, Rotation::Identity)));
    assert_eq!(catalog.shape(&line).bitfield.value, 0x00f0_0000);
    let tee = ShapeId::from((Tetromino::T, at(Polarity::Positive, Axis::Z, Rotation::Generator)));
    assert_eq!(catalog.shape(&tee).bitfield.value, 0x20_0220_0020);
    assert_eq!(catalog.shape(&tee).bitboards, [512, 131584, 512, 0]);
}

#[test]
fn catalog_agrees_with_the_rotation_table() {
    let catalog = Catalog::new();
    for variant in variants() {
        let size = Bitfield::rotation_size(variant);
        for orientation in 0..ORIENTATION_COUNT {
            let id = ShapeId::from((variant, Orientation::from_combination(orientation)));
            for index in 0..6 {
                let around = Direction::from_combination(index);
                let turned = catalog.shape(&id).bitfield.rotate(around, size);
                assert_eq!(catalog.shape(&id.rotate(around)).bitfield.value, turned.value);
                assert_eq!(
                    catalog.rotation(id.orientation, around),
                    id.rotate(around).orientation
                );
            }
        }
    }
}

#[test]
fn asymmetric_variants_have_24_shapes() {
    let catalog = Catalog::new();
    for variant in [Tetromino::L, Tetromino::S] {
        let mut seen: Vec<u64> = Vec::new();
        for orientation in 0..ORIENTATION_COUNT {
            let id = ShapeId::from((variant, Orientation::from_combination(orientation)));
            let value = catalog.shape(&id).bitfield.value;
            assert!(!seen.contains(&value));
            seen.push(value);
        }
        assert_eq!(seen.len(), 24);
    }
}

#[test]
fn variants_have_their_colours() {
    assert_eq!(Tetromino::I.to_rgb(), (0, 255, 255));
    assert_eq!(Tetromino::O.to_rgb(), (255, 255, 0));
    assert_eq!(Tetromino::T.to_rgb(), (127, 0, 127));
    assert_eq!(Tetromino::L.to_rgb(), (255, 127, 0));
    assert_eq!(Tetromino::S.to_rgb(), (0, 255, 0));
    assert_eq!(Tetromino::B.to_rgb(), (127, 47, 0));
    assert_eq!(Tetromino::D.to_rgb(), (63, 63, 63));
    assert_eq!(Tetromino::F.to_rgb(), (191, 191, 191));
}
