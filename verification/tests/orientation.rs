use blockfall::orientation::ORIENTATION_COUNT;
use blockfall::{generate_rotations, rotate, Axis, Direction, Orientation, Polarity, Rotation};

fn all_directions() -> Vec<Direction> {
    (0..6).map(Direction::from_combination).collect()
}

fn all_orientations() -> Vec<Orientation> {
    (0..ORIENTATION_COUNT).map(Orientation::from_combination).collect()
}

#[test]
fn direction_it_works() {
    let a = Direction { axis: Axis::X, polarity: Polarity::Positive };
    let b = Direction { axis: Axis::Z, polarity: Polarity::Positive };

    let c = a.cross(b).unwrap();

    assert_eq!(c, Direction { axis: Axis::Y, polarity: Polarity::Positive })
}

#[test]
fn axis_cross_gives_the_third_axis() {
    assert_eq!(Axis::X.cross(Axis::Y), Some(Axis::Z));
    assert_eq!(Axis::Y.cross(Axis::X), Some(Axis::Z));
    assert_eq!(Axis::Y.cross(Axis::Z), Some(Axis::X));
    assert_eq!(Axis::Z.cross(Axis::X), Some(Axis::Y));
    assert_eq!(Axis::X.cross(Axis::X), None);
    assert_eq!(Axis::Z.cross(Axis::Z), None);
}

#[test]
fn axis_rotate_dimensions_swaps_the_other_two() {
    assert_eq!(Axis::X.rotate_dimensions([1, 2, 3]), [1, 3, 2]);
    assert_eq!(Axis::Y.rotate_dimensions([1, 2, 3]), [3, 2, 1]);
    assert_eq!(Axis::Z.rotate_dimensions([1, 2, 3]), [2, 1, 3]);
}

#[test]
fn polarity_cross_is_the_sign_rule() {
    assert_eq!(Polarity::Positive.cross(Polarity::Positive), Polarity::Positive);
    assert_eq!(Polarity::Negative.cross(Polarity::Negative), Polarity::Positive);
    assert_eq!(Polarity::Positive.cross(Polarity::Negative), Polarity::Negative);
    assert_eq!(Polarity::Negative.cross(Polarity::Positive), Polarity::Negative);
    assert_eq!(Polarity::Positive.opposite(), Polarity::Negative);
}

#[test]
fn direction_cross_needs_two_axes() {
    for a in all_directions() {
        for b in all_directions() {
            assert_eq!(a.cross(b).is_some(), a.axis != b.axis);
        }
    }
    let negative_x = Direction { axis: Axis::X, polarity: Polarity::Negative };
    let positive_y = Direction { axis: Axis::Y, polarity: Polarity::Positive };
    assert_eq!(
        negative_x.cross(positive_y),
        Some(Direction { axis: Axis::Z, polarity: Polarity::Negative })
    );
}

#[test]
fn direction_combination_is_dense() {
    let expected = [
        (Polarity::Positive, Axis::X),
        (Polarity::Negative, Axis::X),
        (Polarity::Positive, Axis::Y),
        (Polarity::Negative, Axis::Y),
        (Polarity::Positive, Axis::Z),
        (Polarity::Negative, Axis::Z),
    ];
    for (index, pair) in expected.iter().enumerate() {
        let direction = Direction::from(*pair);
        assert_eq!(direction.combination(), index);
        assert_eq!(Direction::from_combination(index), direction);
        assert_eq!(direction.opposite().opposite(), direction);
        assert_eq!(direction.opposite().axis, direction.axis);
        let back: (Polarity, Axis) = direction.into();
        assert_eq!(back, *pair);
    }
}

#[test]
fn rotate_coordinate_follows_the_six_formulas() {
    let at = |polarity, axis| Direction { polarity, axis };
    let cell = [0, 1, 2];
    assert_eq!(at(Polarity::Positive, Axis::X).rotate_coordinate(cell, 3), [0, 0, 1]);
    assert_eq!(at(Polarity::Negative, Axis::X).rotate_coordinate(cell, 3), [0, 2, 1]);
    assert_eq!(at(Polarity::Positive, Axis::Y).rotate_coordinate(cell, 3), [2, 1, 2]);
    assert_eq!(at(Polarity::Negative, Axis::Y).rotate_coordinate(cell, 3), [0, 1, 0]);
    assert_eq!(at(Polarity::Positive, Axis::Z).rotate_coordinate(cell, 3), [1, 0, 2]);
    assert_eq!(at(Polarity::Negative, Axis::Z).rotate_coordinate(cell, 3), [1, 2, 2]);
}

#[test]
fn rotate_coordinate_is_undone_by_the_opposite() {
    for direction in all_directions() {
        for x in 0..4 {
            for y in 0..4 {
                for z in 0..4 {
                    let there = direction.rotate_coordinate([x, y, z], 4);
                    assert_eq!(direction.opposite().rotate_coordinate(there, 4), [x, y, z]);
                }
            }
        }
    }
}

#[test]
fn rotation_counts_modulo_four() {
    assert_eq!(Rotation::from(0), Rotation::Identity);
    assert_eq!(Rotation::from(5), Rotation::Generator);
    assert_eq!(Rotation::from(-1), Rotation::Prime);
    assert_eq!(Rotation::from(-6), Rotation::Double);
    assert_eq!(Rotation::from(isize::MIN), Rotation::Identity);
    assert_eq!(Rotation::Prime.rotate_by(1), Rotation::Identity);
    assert_eq!(Rotation::Identity.rotate_by(-1), Rotation::Prime);
    assert_eq!(Rotation::Double.rotate_by(7), Rotation::Generator);
    assert_eq!(Rotation::Double + Rotation::Prime, Rotation::Generator);
    assert_eq!(Rotation::Identity + Rotation::Identity, Rotation::Identity);
}

#[test]
fn orientation_combination_is_dense() {
    let orientation = Orientation::from((
        Direction::from((Polarity::Negative, Axis::Y)),
        Rotation::Prime,
    ));
    assert_eq!(orientation.combination(), 3 + 3 * 4);
    let around = Direction::from((Polarity::Positive, Axis::Z));
    assert_eq!(orientation.rotation_combination(around), 4 + 15 * 6);
    for index in 0..ORIENTATION_COUNT {
        assert_eq!(Orientation::from_combination(index).combination(), index);
    }
    assert_eq!(Orientation::default().combination(), 8);
}

#[test]
fn rotate_is_closed() {
    for orientation in all_orientations() {
        for around in all_directions() {
            let turned = rotate(orientation, around);
            assert!(turned.combination() < ORIENTATION_COUNT);
            assert_eq!(Orientation::from_combination(turned.combination()), turned);
        }
    }
}

#[test]
fn rotate_has_period_four() {
    for orientation in all_orientations() {
        for around in all_directions() {
            let mut turned = orientation;
            for _ in 0..4 {
                turned = rotate(turned, around);
            }
            assert_eq!(turned, orientation);
            assert_ne!(rotate(orientation, around), orientation);
            assert_ne!(rotate(rotate(orientation, around), around), orientation);
        }
    }
}

#[test]
fn rotate_is_undone_by_the_opposite() {
    for orientation in all_orientations() {
        for around in all_directions() {
            assert_eq!(rotate(rotate(orientation, around), around.opposite()), orientation);
        }
    }
}

#[test]
fn rotate_keeps_the_direction_only_about_its_own_axis() {
    for orientation in all_orientations() {
        for around in all_directions() {
            let turned = rotate(orientation, around);
            if around.axis == orientation.direction.axis {
                assert_eq!(turned.direction, orientation.direction);
                assert_ne!(turned.rotation, orientation.rotation);
            } else {
                assert_ne!(turned.direction, orientation.direction);
            }
        }
    }
}

#[test]
fn rotate_chosen_entries() {
    let at = |polarity, axis, rotation| Orientation {
        direction: Direction { polarity, axis },
        rotation,
    };
    let positive_y = Direction { polarity: Polarity::Positive, axis: Axis::Y };
    let negative_z = Direction { polarity: Polarity::Negative, axis: Axis::Z };
    assert_eq!(
        rotate(at(Polarity::Positive, Axis::Y, Rotation::Identity), positive_y),
        at(Polarity::Positive, Axis::Y, Rotation::Generator)
    );
    assert_eq!(
        rotate(at(Polarity::Positive, Axis::X, Rotation::Identity), positive_y),
        at(Polarity::Negative, Axis::Z, Rotation::Generator)
    );
    assert_eq!(
        rotate(at(Polarity::Positive, Axis::X, Rotation::Double), negative_z),
        at(Polarity::Negative, Axis::Y, Rotation::Prime)
    );
}

#[test]
fn rotation_table_holds_every_turn() {
    let table = generate_rotations();
    assert_eq!(table.len(), 144);
    for orientation in all_orientations() {
        for around in all_directions() {
            assert_eq!(
                table[orientation.rotation_combination(around)],
                rotate(orientation, around)
            );
        }
    }
}
