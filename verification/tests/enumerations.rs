use dis_rs::enumerations::{
    AcknowledgeFlag, ActionId, ApTypeDesignator, Camouflage, Country, Density, DrAlgorithm,
    EntityDamage, EntityHatchState, EntityKind, EntityMarkingCharacterSet, EntityPaintScheme,
    FireTypeIndicator, ForceId, LifeFormsState, LvcIndicator, PduType, ProtocolFamily,
    ProtocolVersion, RequestStatus, ResponseFlag, Weapon,
};

#[test]
fn force_id_round_trips_every_code() {
    for n in 0u16..=255 {
        let n = n as u8;
        assert_eq!(ForceId::from_u8(n).to_u8(), n);
    }
    assert_eq!(ForceId::from_u8(0), ForceId::Other);
    assert_eq!(ForceId::from_u8(1), ForceId::Friendly);
    assert_eq!(ForceId::from_u8(2), ForceId::Opposing);
    assert_eq!(ForceId::from_u8(3), ForceId::Neutral);
    assert_eq!(ForceId::from_u8(4), ForceId::Unknown(4));
}

#[test]
fn pdu_type_round_trips_every_code() {
    for n in 0u16..=255 {
        let n = n as u8;
        assert_eq!(PduType::from_u8(n).to_u8(), n);
    }
    assert_eq!(PduType::from_u8(1), PduType::EntityState);
    assert_eq!(PduType::from_u8(2), PduType::Fire);
    assert_eq!(PduType::from_u8(15), PduType::Acknowledge);
    assert_eq!(PduType::from_u8(16), PduType::ActionRequest);
    assert_eq!(PduType::from_u8(17), PduType::ActionResponse);
    assert_eq!(PduType::from_u8(29), PduType::Unknown(29));
}

#[test]
fn protocol_version_codes() {
    assert_eq!(ProtocolVersion::from_u8(6), ProtocolVersion::V6);
    assert_eq!(ProtocolVersion::from_u8(7), ProtocolVersion::V7);
    assert_eq!(ProtocolVersion::from_u8(5), ProtocolVersion::Unknown(5));
    for n in 0u16..=255 {
        let n = n as u8;
        assert_eq!(ProtocolVersion::from_u8(n).to_u8(), n);
    }
}

#[test]
fn sixteen_bit_enums_round_trip() {
    for n in [0u16, 1, 2, 3, 4, 5, 70, 71, 153, 225, 1000, u16::MAX] {
        assert_eq!(Country::from_u16(n).to_u16(), n);
        assert_eq!(AcknowledgeFlag::from_u16(n).to_u16(), n);
        assert_eq!(ResponseFlag::from_u16(n).to_u16(), n);
    }
    assert_eq!(Country::from_u16(225), Country::UnitedStates);
    assert_eq!(Country::from_u16(153), Country::Netherlands);
    assert_eq!(AcknowledgeFlag::from_u16(1), AcknowledgeFlag::CreateEntity);
    assert_eq!(ResponseFlag::from_u16(1), ResponseFlag::AbleToComply);
}

#[test]
fn thirty_two_bit_enums_round_trip() {
    for n in [0u32, 1, 2, 6, 7, 1024, u32::MAX] {
        assert_eq!(ActionId::from_u32(n).to_u32(), n);
        assert_eq!(RequestStatus::from_u32(n).to_u32(), n);
    }
    assert_eq!(ActionId::from_u32(2), ActionId::OutOfAmmunition);
    assert_eq!(RequestStatus::from_u32(4), RequestStatus::Complete);
}

#[test]
fn appearance_field_enums_round_trip() {
    for n in 0u16..=255 {
        let n = n as u8;
        assert_eq!(EntityPaintScheme::from_u8(n).to_u8(), n);
        assert_eq!(EntityDamage::from_u8(n).to_u8(), n);
        assert_eq!(EntityHatchState::from_u8(n).to_u8(), n);
        assert_eq!(Camouflage::from_u8(n).to_u8(), n);
        assert_eq!(LifeFormsState::from_u8(n).to_u8(), n);
        assert_eq!(Weapon::from_u8(n).to_u8(), n);
        assert_eq!(Density::from_u8(n).to_u8(), n);
        assert_eq!(DrAlgorithm::from_u8(n).to_u8(), n);
        assert_eq!(ApTypeDesignator::from_u8(n).to_u8(), n);
        assert_eq!(EntityKind::from_u8(n).to_u8(), n);
        assert_eq!(ProtocolFamily::from_u8(n).to_u8(), n);
        assert_eq!(FireTypeIndicator::from_u8(n).to_u8(), n);
        assert_eq!(LvcIndicator::from_u8(n).to_u8(), n);
    }
    assert_eq!(Camouflage::from_u8(3), Camouflage::Unknown(3));
    assert_eq!(LifeFormsState::from_u8(10), LifeFormsState::Unknown(10));
}

#[test]
fn enum_defaults() {
    assert_eq!(EntityPaintScheme::default(), EntityPaintScheme::UniformColor);
    assert_eq!(EntityDamage::default(), EntityDamage::NoDamage);
    assert_eq!(DrAlgorithm::default(), DrAlgorithm::Other);
    assert_eq!(ApTypeDesignator::default(), ApTypeDesignator::Articulated);
    assert_eq!(
        LifeFormsState::default(),
        LifeFormsState::UprightStandingStill
    );
    assert_eq!(
        EntityMarkingCharacterSet::default(),
        EntityMarkingCharacterSet::ASCII
    );
    assert_eq!(FireTypeIndicator::default(), FireTypeIndicator::Munition);
    assert_eq!(PduType::default(), PduType::Other);
    assert_eq!(AcknowledgeFlag::default(), AcknowledgeFlag::CreateEntity);
}
