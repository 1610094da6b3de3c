use homography::chain::{Chain, EditError, Kind, Transform, ONE, ZERO};

#[test]
fn the_named_bit_patterns_are_zero_and_one() {
    assert_eq!(f32::from_bits(ZERO), 0.0);
    assert_eq!(f32::from_bits(ONE), 1.0);
    assert_eq!(0.0f32.to_bits(), ZERO);
    assert_eq!(1.0f32.to_bits(), ONE);
}

#[test]
fn a_new_chain_is_all_identity() {
    let chain = Chain::new(10);
    assert_eq!(chain.len(), 10);
    assert_eq!(chain.transforms(), &vec![Transform::Identity; 10]);
    assert_eq!(chain.get(0), Some(Transform::Identity));
    assert_eq!(chain.get(9), Some(Transform::Identity));
    assert_eq!(chain.get(10), None);
}

#[test]
fn a_chain_may_have_no_slot() {
    let mut chain = Chain::new(0);
    assert_eq!(chain.len(), 0);
    assert_eq!(chain.get(0), None);
    assert_eq!(chain.select(0, Kind::Rotate), Err(EditError::NoSuchSlot));
}

#[test]
fn kind_names_the_variant() {
    assert_eq!(Transform::Identity.kind(), Kind::Identity);
    assert_eq!(Transform::Rotate { angle_degrees: 7 }.kind(), Kind::Rotate);
    assert_eq!(Transform::Translate { tx: 1, ty: 2 }.kind(), Kind::Translate);
    assert_eq!(Transform::Scale { sx: 3, sy: 4 }.kind(), Kind::Scale);
}

#[test]
fn the_initial_transform_of_each_kind_changes_nothing() {
    assert_eq!(Transform::initial(Kind::Identity), Transform::Identity);
    assert_eq!(
        Transform::initial(Kind::Rotate),
        Transform::Rotate { angle_degrees: 0.0f32.to_bits() }
    );
    assert_eq!(
        Transform::initial(Kind::Translate),
        Transform::Translate { tx: 0.0f32.to_bits(), ty: 0.0f32.to_bits() }
    );
    assert_eq!(
        Transform::initial(Kind::Scale),
        Transform::Scale { sx: 1.0f32.to_bits(), sy: 1.0f32.to_bits() }
    );
}

#[test]
fn select_switches_one_slot_and_no_other() {
    let mut chain = Chain::new(4);
    assert_eq!(chain.select(2, Kind::Scale), Ok(()));
    assert_eq!(
        chain.transforms(),
        &vec![
            Transform::Identity,
            Transform::Identity,
            Transform::Scale { sx: ONE, sy: ONE },
            Transform::Identity,
        ]
    );
}

#[test]
fn select_resets_the_parameters() {
    let mut chain = Chain::new(2);
    assert_eq!(chain.select(0, Kind::Rotate), Ok(()));
    assert_eq!(chain.set_angle(0, 45.0f32.to_bits()), Ok(()));
    assert_eq!(chain.get(0), Some(Transform::Rotate { angle_degrees: 45.0f32.to_bits() }));
    assert_eq!(chain.select(0, Kind::Rotate), Ok(()));
    assert_eq!(chain.get(0), Some(Transform::Rotate { angle_degrees: ZERO }));
    assert_eq!(chain.select(0, Kind::Translate), Ok(()));
    assert_eq!(chain.get(0), Some(Transform::Translate { tx: ZERO, ty: ZERO }));
    assert_eq!(chain.select(0, Kind::Identity), Ok(()));
    assert_eq!(chain.transforms(), Chain::new(2).transforms());
}

#[test]
fn select_outside_the_chain_changes_nothing() {
    let mut chain = Chain::new(3);
    assert_eq!(chain.select(3, Kind::Scale), Err(EditError::NoSuchSlot));
    assert_eq!(chain.select(usize::MAX, Kind::Scale), Err(EditError::NoSuchSlot));
    assert_eq!(chain.transforms(), &vec![Transform::Identity; 3]);
}

#[test]
fn set_angle_edits_a_rotation_in_place() {
    let mut chain = Chain::new(3);
    chain.select(1, Kind::Rotate).unwrap();
    assert_eq!(chain.set_angle(1, 90.0f32.to_bits()), Ok(()));
    assert_eq!(
        chain.transforms(),
        &vec![
            Transform::Identity,
            Transform::Rotate { angle_degrees: 90.0f32.to_bits() },
            Transform::Identity,
        ]
    );
}

#[test]
fn set_shift_edits_a_translation_in_place() {
    let mut chain = Chain::new(2);
    chain.select(0, Kind::Translate).unwrap();
    assert_eq!(chain.set_shift(0, 30.0f32.to_bits(), (-15.5f32).to_bits()), Ok(()));
    assert_eq!(
        chain.get(0),
        Some(Transform::Translate { tx: 30.0f32.to_bits(), ty: (-15.5f32).to_bits() })
    );
    assert_eq!(chain.get(1), Some(Transform::Identity));
}

#[test]
fn set_factors_edits_a_scaling_in_place() {
    let mut chain = Chain::new(2);
    chain.select(1, Kind::Scale).unwrap();
    assert_eq!(chain.set_factors(1, 2.0f32.to_bits(), 0.5f32.to_bits()), Ok(()));
    assert_eq!(
        chain.get(1),
        Some(Transform::Scale { sx: 2.0f32.to_bits(), sy: 0.5f32.to_bits() })
    );
    assert_eq!(chain.set_factors(1, ZERO, ZERO), Ok(()));
    assert_eq!(chain.get(1), Some(Transform::Scale { sx: ZERO, sy: ZERO }));
}

#[test]
fn an_edit_for_another_kind_changes_nothing() {
    let mut chain = Chain::new(3);
    chain.select(0, Kind::Rotate).unwrap();
    chain.select(1, Kind::Translate).unwrap();
    let before = chain.transforms().clone();
    assert_eq!(chain.set_angle(1, ONE), Err(EditError::OtherKind));
    assert_eq!(chain.set_angle(2, ONE), Err(EditError::OtherKind));
    assert_eq!(chain.set_shift(0, ONE, ONE), Err(EditError::OtherKind));
    assert_eq!(chain.set_shift(2, ONE, ONE), Err(EditError::OtherKind));
    assert_eq!(chain.set_factors(0, ONE, ONE), Err(EditError::OtherKind));
    assert_eq!(chain.set_factors(1, ONE, ONE), Err(EditError::OtherKind));
    assert_eq!(chain.transforms(), &before);
}

#[test]
fn an_edit_outside_the_chain_changes_nothing() {
    let mut chain = Chain::new(1);
    chain.select(0, Kind::Rotate).unwrap();
    assert_eq!(chain.set_angle(1, ONE), Err(EditError::NoSuchSlot));
    assert_eq!(chain.set_shift(1, ONE, ONE), Err(EditError::NoSuchSlot));
    assert_eq!(chain.set_factors(5, ONE, ONE), Err(EditError::NoSuchSlot));
    assert_eq!(chain.transforms(), &vec![Transform::Rotate { angle_degrees: ZERO }]);
}
