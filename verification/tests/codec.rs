use dis_rs::appearance::{
    AirPlatformsRecord, Appearance, GeneralAppearance, LandPlatformsRecord, LifeFormsRecord,
    SpecificAppearance,
};
use dis_rs::entity_state::{
    parse_marking, ArticulatedParts, ArticulationParameter, DrParameters, EntityCapabilities,
    EntityMarking, EntityState, ParameterTypeVariant,
};
use dis_rs::enumerations::{
    AcknowledgeFlag, ActivityState, Afterburner, ApTypeDesignator, ArticulatedPartsTypeClass,
    ArticulatedPartsTypeMetric, Camouflage, Concealed, Country, CoupledExtensionIndicator,
    DrAlgorithm, EntityDamage, EntityFirePower, EntityFlamingEffect, EntityHatchState,
    EntityKind, EntityLights, EntityMarkingCharacterSet, EntityMobilityKill, EntityPaintScheme,
    EntitySmoke, EntityTrailingEffect, FireTypeIndicator, ForceId, FrozenStatus, Launcher,
    LifeFormsState, LvcIndicator, PduType, PowerPlantStatus, ProtocolFamily, ProtocolVersion,
    Ramp, ResponseFlag, State, Tent, TransferredEntityIndicator, Weapon,
};
use dis_rs::errors::DisError;
use dis_rs::fire::{DescriptorRecord, Fire, MunitionDescriptor};
use dis_rs::header::{PduHeader, PduStatus};
use dis_rs::pdu::{Pdu, PduBody};
use dis_rs::records::{
    parse_variable_datum, write_variable_datum, EntityId, EntityType, EventId, FixedDatum,
    Location, Orientation, SimulationAddress, VariableDatum, VectorF32,
};
use dis_rs::siman::{Acknowledge, ActionRequest};

fn entity_id(site: u16, application: u16, entity: u16) -> EntityId {
    EntityId {
        simulation_address: SimulationAddress { site_id: site, application_id: application },
        entity_id: entity,
    }
}

fn land_platform_type() -> EntityType {
    EntityType {
        kind: EntityKind::Platform,
        domain: 1,
        country: Country::UnitedStates,
        category: 1,
        subcategory: 2,
        specific: 3,
        extra: 0,
    }
}

fn land_appearance() -> Appearance {
    Appearance {
        general_appearance: GeneralAppearance {
            entity_paint_scheme: EntityPaintScheme::UniformColor,
            entity_mobility_kill: EntityMobilityKill::NoMobilityKill,
            entity_fire_power: EntityFirePower::NoFirePowerKill,
            entity_damage: EntityDamage::NoDamage,
            entity_smoke: EntitySmoke::NotSmoking,
            entity_trailing_effect: EntityTrailingEffect::NoTrailingEffect,
            entity_hatch_state: EntityHatchState::Closed,
            entity_lights: EntityLights::NoLights,
            entity_flaming_effect: EntityFlamingEffect::NoFlaming,
        },
        specific_appearance: SpecificAppearance::LandPlatform(LandPlatformsRecord {
            launcher: Launcher::NotRaised,
            camouflage_type: Camouflage::Forest,
            concealed: Concealed::NotConcealed,
            frozen_status: FrozenStatus::NotFrozen,
            power_plant_status: PowerPlantStatus::On,
            state: State::Active,
            tent: Tent::NotExtended,
            ramp: Ramp::Up,
        }),
    }
}

fn sample_entity_state(force_id: ForceId, marking: &str) -> EntityState {
    EntityState {
        entity_id: entity_id(7, 8, 9),
        force_id,
        entity_type: land_platform_type(),
        alternative_entity_type: land_platform_type(),
        entity_linear_velocity: VectorF32 {
            first_vector_component: 0x3f80_0000,
            second_vector_component: 0x4000_0000,
            third_vector_component: 0,
        },
        entity_location: Location {
            x_coordinate: 0x4110_0000_0000_0000,
            y_coordinate: 0x4120_0000_0000_0000,
            z_coordinate: 0,
        },
        entity_orientation: Orientation { psi: 0x3e80_0000, theta: 0, phi: 0x3f00_0000 },
        entity_appearance: land_appearance(),
        dead_reckoning_parameters: DrParameters {
            algorithm: DrAlgorithm::DrmFPW,
            other_parameters: vec![0u8; 15],
            linear_acceleration: VectorF32 {
                first_vector_component: 0,
                second_vector_component: 0,
                third_vector_component: 0,
            },
            angular_velocity: VectorF32 {
                first_vector_component: 0,
                second_vector_component: 0,
                third_vector_component: 0,
            },
        },
        entity_marking: EntityMarking {
            marking_character_set: EntityMarkingCharacterSet::ASCII,
            marking_string: marking.to_string(),
        },
        entity_capabilities: EntityCapabilities {
            ammunition_supply: true,
            fuel_supply: false,
            recovery: false,
            repair: true,
        },
        articulation_parameter: None,
    }
}

fn v6_header(pdu_type: PduType, family: ProtocolFamily, length: u16) -> PduHeader {
    PduHeader {
        protocol_version: ProtocolVersion::V6,
        exercise_id: 1,
        pdu_type,
        protocol_family: family,
        time_stamp: 0,
        pdu_length: length,
        pdu_status: None,
        padding: 0,
    }
}

#[test]
fn parse_marking_ascii() {
    let bytes: Vec<u8> = vec![
        0x01, 0x45, 0x59, 0x45, 0x20, 0x31, 0x30, 0x20, 0x20, 0x20, 0x20, 0x20,
    ];

    let marking = parse_marking(&bytes, 0, 12);
    assert!(marking.is_ok());
    let marking = marking.unwrap().0;
    assert_eq!(marking.marking_character_set, EntityMarkingCharacterSet::ASCII);
    assert_eq!(marking.marking_string, "EYE 10");
}

#[test]
fn empty_other_pdu_v6_round_trip() {
    let bytes: Vec<u8> = vec![
        0x06, 0x01, 0x00, 0x01, 0x00, 0x00, 0x00, 0x00, 0x00, 0x0C, 0x00, 0x00,
    ];
    let results = dis_rs::parse(&bytes);
    assert_eq!(results.len(), 1);
    let pdu = results[0].as_ref().unwrap();
    assert_eq!(pdu.header.protocol_version, ProtocolVersion::V6);
    assert_eq!(pdu.header.exercise_id, 1);
    assert_eq!(pdu.header.pdu_type, PduType::Other);
    assert_eq!(pdu.header.pdu_length, 12);
    match &pdu.body {
        PduBody::Other(raw) => assert!(raw.is_empty()),
        _ => panic!("expected the raw body"),
    }
    let mut out: Vec<u8> = Vec::new();
    let written = pdu.serialize(&mut out);
    assert_eq!(written, 12);
    assert_eq!(out, bytes);
}

#[test]
fn acknowledge_pdu_lengths() {
    let body = Acknowledge::builder()
        .originating_id(entity_id(1, 1, 1))
        .receiving_id(entity_id(1, 1, 2))
        .acknowledge_flag(AcknowledgeFlag::CreateEntity)
        .response_flag(ResponseFlag::AbleToComply)
        .request_id(42)
        .build()
        .unwrap();
    assert_eq!(body.body_length(), 20);
    let header = v6_header(PduType::Acknowledge, ProtocolFamily::SimulationManagement, 32);
    let pdu = Pdu { header, body: body.into_pdu_body() };
    let mut out: Vec<u8> = Vec::new();
    let written = pdu.serialize(&mut out);
    assert_eq!(written, 32);
    assert_eq!(out.len(), 32);
    let results = dis_rs::parse(&out);
    assert_eq!(results.len(), 1);
    let back = results[0].as_ref().unwrap();
    match &back.body {
        PduBody::Acknowledge(a) => {
            assert_eq!(a, &body);
            assert_eq!(a.request_id, 42);
        },
        _ => panic!("expected an Acknowledge body"),
    }
}

#[test]
fn entity_state_marking_round_trip() {
    let es = sample_entity_state(ForceId::Friendly, "EYE 10");
    let header = v6_header(PduType::EntityState, ProtocolFamily::EntityInformation, 144);
    let pdu = Pdu { header, body: PduBody::EntityState(es) };
    let mut out: Vec<u8> = Vec::new();
    let written = pdu.serialize(&mut out);
    assert_eq!(written, 144);
    // The marking block sits 116 bytes into the body: charset 1, then the
    // text right-padded with spaces to eleven bytes.
    let marking_block = &out[12 + 116..12 + 128];
    assert_eq!(
        marking_block,
        &[0x01, b'E', b'Y', b'E', b' ', b'1', b'0', 0x20, 0x20, 0x20, 0x20, 0x20]
    );
    let results = dis_rs::parse(&out);
    let back = results[0].as_ref().unwrap();
    match &back.body {
        PduBody::EntityState(b) => {
            assert_eq!(b.entity_marking.marking_string, "EYE 10");
            assert_eq!(
                b.entity_marking.marking_character_set,
                EntityMarkingCharacterSet::ASCII
            );
            assert!(b.articulation_parameter.is_none());
        },
        _ => panic!("expected an Entity State body"),
    }
}

#[test]
fn fire_pdu_v7_munition_descriptor() {
    let fire = Fire {
        firing_entity_id: entity_id(1, 1, 100),
        target_entity_id: entity_id(2, 1, 5),
        entity_id: entity_id(1, 1, 101),
        event_id: EventId {
            simulation_address: SimulationAddress { site_id: 1, application_id: 1 },
            event_id: 1,
        },
        fire_mission_index: 0,
        location_in_world: Location {
            x_coordinate: 0x4110_0000_0000_0000,
            y_coordinate: 0,
            z_coordinate: 0,
        },
        descriptor: DescriptorRecord::Munition {
            entity_type: land_platform_type(),
            munition: MunitionDescriptor { warhead: 1000, fuse: 2001, quantity: 1, rate: 0 },
        },
        velocity: VectorF32 {
            first_vector_component: 0x3f80_0000,
            second_vector_component: 0,
            third_vector_component: 0,
        },
        range: 0x447a_0000,
    };
    let header = PduHeader {
        protocol_version: ProtocolVersion::V7,
        exercise_id: 1,
        pdu_type: PduType::Fire,
        protocol_family: ProtocolFamily::Warfare,
        time_stamp: 0,
        pdu_length: 96,
        pdu_status: Some(PduStatus {
            transferred_entity_indicator: None,
            lvc_indicator: Some(LvcIndicator::Live),
            coupled_extension_indicator: Some(CoupledExtensionIndicator::NotCoupled),
            fire_type_indicator: Some(FireTypeIndicator::Munition),
            detonation_type_indicator: None,
            radio_attached_indicator: None,
            intercom_attached_indicator: None,
            iff_simulation_mode: None,
        }),
        padding: 0,
    };
    let pdu = Pdu { header, body: PduBody::Fire(fire) };
    let mut out: Vec<u8> = Vec::new();
    let written = pdu.serialize(&mut out);
    assert_eq!(written, 96);
    // The status byte's bit 4 is the fire-type indicator: zero for Munition.
    assert_eq!(out[10] & 0x10, 0);
    let descriptor_bytes: Vec<u8> = out[12 + 52..12 + 68].to_vec();
    let results = dis_rs::parse(&out);
    let back = results[0].as_ref().unwrap();
    match &back.body {
        PduBody::Fire(f) => {
            assert_eq!(f.descriptor, pdu_fire_descriptor(&pdu));
            assert!(matches!(f.descriptor, DescriptorRecord::Munition { .. }));
        },
        _ => panic!("expected a Fire body"),
    }
    let mut out2: Vec<u8> = Vec::new();
    back.serialize(&mut out2);
    assert_eq!(&out2[12 + 52..12 + 68], descriptor_bytes.as_slice());
    assert_eq!(out2, out);
}

fn pdu_fire_descriptor(p: &Pdu) -> DescriptorRecord {
    match &p.body {
        PduBody::Fire(f) => f.descriptor,
        _ => panic!("expected a Fire body"),
    }
}

#[test]
fn variable_datum_thirteen_byte_value() {
    let datum = VariableDatum {
        datum_id: 3,
        datum_value: vec![9u8; 13],
    };
    let mut out: Vec<u8> = Vec::new();
    write_variable_datum(&mut out, &datum);
    // id(4) + length_bits(4) + value(13) + pad(3) = 24 bytes, a multiple of 8.
    assert_eq!(out.len(), 24);
    assert_eq!(&out[4..8], &[0, 0, 0, 104]);
    assert_eq!(&out[21..24], &[0, 0, 0]);
    let (back, consumed) = parse_variable_datum(&out, 0, out.len()).unwrap();
    assert_eq!(consumed, 24);
    assert_eq!(back.datum_value.len(), 13);
    assert_eq!(back, datum);

    let body = ActionRequest::builder()
        .originating_id(entity_id(1, 1, 1))
        .receiving_id(entity_id(1, 1, 2))
        .request_id(7)
        .action_id(dis_rs::enumerations::ActionId::LocalStorage)
        .with_variable_datums(vec![datum])
        .build()
        .unwrap();
    assert_eq!(body.body_length(), 28 + 24);
}

#[test]
fn unknown_enum_preserved() {
    assert_eq!(ForceId::from_u8(199), ForceId::Unknown(199));
    assert_eq!(ForceId::Unknown(199).to_u8(), 0xC7);
    let es = sample_entity_state(ForceId::Unknown(199), "X");
    let header = v6_header(PduType::EntityState, ProtocolFamily::EntityInformation, 144);
    let pdu = Pdu { header, body: PduBody::EntityState(es) };
    let mut out: Vec<u8> = Vec::new();
    pdu.serialize(&mut out);
    assert_eq!(out[12 + 6], 0xC7);
    let results = dis_rs::parse(&out);
    match &results[0].as_ref().unwrap().body {
        PduBody::EntityState(b) => assert_eq!(b.force_id, ForceId::Unknown(199)),
        _ => panic!("expected an Entity State body"),
    }
}

#[test]
fn stream_resync_three_results() {
    let ack = Acknowledge {
        originating_id: entity_id(1, 1, 1),
        receiving_id: entity_id(1, 1, 2),
        acknowledge_flag: AcknowledgeFlag::CreateEntity,
        response_flag: ResponseFlag::AbleToComply,
        request_id: 1,
    };
    let header = v6_header(PduType::Acknowledge, ProtocolFamily::SimulationManagement, 32);
    let first = Pdu { header, body: PduBody::Acknowledge(ack) };
    let second = Pdu {
        header: v6_header(PduType::Acknowledge, ProtocolFamily::SimulationManagement, 32),
        body: PduBody::Acknowledge(Acknowledge { request_id: 2, ..ack }),
    };
    let mut buffer: Vec<u8> = Vec::new();
    first.serialize(&mut buffer);
    // A corrupt block: a header that advertises 16 bytes for an Acknowledge
    // PDU, whose body needs 20; the parser reports one error and advances by
    // the declared 16 bytes.
    buffer.extend_from_slice(&[
        0x06, 0x01, 0x0F, 0x05, 0x00, 0x00, 0x00, 0x00, 0x00, 0x10, 0x00, 0x00,
    ]);
    buffer.extend_from_slice(&[0xAA, 0xBB, 0xCC, 0xDD]);
    second.serialize(&mut buffer);
    let results = dis_rs::parse(&buffer);
    assert_eq!(results.len(), 3);
    assert!(results[0].is_ok());
    assert!(matches!(
        results[1],
        Err(DisError::InconsistentLength { declared: 16, actual: 12 })
    ));
    assert!(results[2].is_ok());
    match &results[2].as_ref().unwrap().body {
        PduBody::Acknowledge(a) => assert_eq!(a.request_id, 2),
        _ => panic!("expected an Acknowledge body"),
    }
}

#[test]
fn version_discriminated_tei() {
    let mut es = sample_entity_state(ForceId::Friendly, "TEI");
    es.articulation_parameter = None;
    let v7_header = PduHeader {
        protocol_version: ProtocolVersion::V7,
        exercise_id: 3,
        pdu_type: PduType::EntityState,
        protocol_family: ProtocolFamily::EntityInformation,
        time_stamp: 0,
        pdu_length: 144,
        pdu_status: Some(PduStatus {
            transferred_entity_indicator: Some(TransferredEntityIndicator::Difference),
            lvc_indicator: Some(LvcIndicator::NoStatement),
            coupled_extension_indicator: Some(CoupledExtensionIndicator::NotCoupled),
            fire_type_indicator: None,
            detonation_type_indicator: None,
            radio_attached_indicator: None,
            intercom_attached_indicator: None,
            iff_simulation_mode: None,
        }),
        padding: 0,
    };
    let pdu = Pdu { header: v7_header, body: PduBody::EntityState(es.clone()) };
    let mut out: Vec<u8> = Vec::new();
    pdu.serialize(&mut out);
    assert_eq!(out[10] & 1, 1);
    let results = dis_rs::parse(&out);
    let back = results[0].as_ref().unwrap();
    let status = back.header.pdu_status.unwrap();
    assert_eq!(
        status.transferred_entity_indicator,
        Some(TransferredEntityIndicator::Difference)
    );
    // Re-encoding the same body under a version 6 header clears the flag:
    // the status byte is no longer written at all.
    let v6 = Pdu {
        header: v6_header(PduType::EntityState, ProtocolFamily::EntityInformation, 144),
        body: PduBody::EntityState(es),
    };
    let mut out6: Vec<u8> = Vec::new();
    v6.serialize(&mut out6);
    assert_eq!(out6[10], 0);
    assert_eq!(out6[11], 0);
    let results6 = dis_rs::parse(&out6);
    assert!(results6[0].as_ref().unwrap().header.pdu_status.is_none());
}

#[test]
fn entity_state_with_articulations_round_trip() {
    let mut es = sample_entity_state(ForceId::Opposing, "ART");
    es.articulation_parameter = Some(vec![
        ArticulationParameter {
            parameter_type_designator: ApTypeDesignator::Articulated,
            parameter_change_indicator: 0,
            articulation_attachment_id: 1,
            parameter_type_variant: ParameterTypeVariant::ArticulatedParts(ArticulatedParts {
                type_metric: ArticulatedPartsTypeMetric::Azimuth,
                type_class: ArticulatedPartsTypeClass::Rudder,
            }),
            articulation_parameter_value: 0x3ff0_0000_0000_0000,
        },
        ArticulationParameter {
            parameter_type_designator: ApTypeDesignator::Attached,
            parameter_change_indicator: 1,
            articulation_attachment_id: 2,
            parameter_type_variant: ParameterTypeVariant::AttachedParts(896),
            articulation_parameter_value: 0,
        },
    ]);
    let header = v6_header(
        PduType::EntityState,
        ProtocolFamily::EntityInformation,
        144 + 32,
    );
    let pdu = Pdu { header, body: PduBody::EntityState(es) };
    let mut out: Vec<u8> = Vec::new();
    let written = pdu.serialize(&mut out);
    assert_eq!(written, 176);
    assert_eq!(out[12 + 7], 2);
    let results = dis_rs::parse(&out);
    let back = results[0].as_ref().unwrap();
    assert_eq!(back, &pdu);
}

#[test]
fn action_request_round_trip() {
    let body = ActionRequest::builder()
        .originating_id(entity_id(5, 6, 7))
        .receiving_id(entity_id(5, 6, 8))
        .request_id(99)
        .action_id(dis_rs::enumerations::ActionId::OutOfAmmunition)
        .with_fixed_datums(vec![
            FixedDatum { datum_id: 11, datum_value: 1 },
            FixedDatum { datum_id: 12, datum_value: 2 },
        ])
        .with_variable_datums(vec![VariableDatum { datum_id: 13, datum_value: vec![1, 2, 3] }])
        .build()
        .unwrap();
    let length = body.body_length();
    // 28 + 16 fixed + 16 padded variable.
    assert_eq!(length, 60);
    let header = v6_header(
        PduType::ActionRequest,
        ProtocolFamily::SimulationManagement,
        12 + length,
    );
    let pdu = Pdu { header, body: body.into_pdu_body() };
    let mut out: Vec<u8> = Vec::new();
    let written = pdu.serialize(&mut out);
    assert_eq!(written, 72);
    assert_eq!(written % 8, 0);
    let results = dis_rs::parse(&out);
    assert_eq!(results[0].as_ref().unwrap(), &pdu);
}

#[test]
fn body_length_matches_serialized_size() {
    let es = sample_entity_state(ForceId::Friendly, "LEN");
    let body = PduBody::EntityState(es);
    let length = body.body_length();
    assert_eq!(length, 132);
    let header = v6_header(
        PduType::EntityState,
        ProtocolFamily::EntityInformation,
        12 + length,
    );
    let pdu = Pdu { header, body };
    let mut out: Vec<u8> = Vec::new();
    let written = pdu.serialize(&mut out);
    assert_eq!(written, out.len());
    assert_eq!(written as u16, 12 + length);
}

#[test]
fn other_pdu_unknown_type_round_trip() {
    let raw = vec![1u8, 2, 3, 4];
    let header = PduHeader {
        protocol_version: ProtocolVersion::V6,
        exercise_id: 9,
        pdu_type: PduType::Unknown(99),
        protocol_family: ProtocolFamily::Other,
        time_stamp: 5,
        pdu_length: 16,
        pdu_status: None,
        padding: 0,
    };
    let pdu = Pdu { header, body: PduBody::Other(raw) };
    let mut out: Vec<u8> = Vec::new();
    pdu.serialize(&mut out);
    assert_eq!(out[2], 99);
    let results = dis_rs::parse(&out);
    assert_eq!(results[0].as_ref().unwrap(), &pdu);
}

#[test]
fn insufficient_bytes_error() {
    let bytes: Vec<u8> = vec![0x06, 0x01, 0x00];
    let results = dis_rs::parse(&bytes);
    assert_eq!(results.len(), 1);
    assert!(matches!(
        results[0],
        Err(DisError::InsufficientBytes { needed: 12, available: 3 })
    ));
}

#[test]
fn unsupported_version_error() {
    let bytes: Vec<u8> = vec![
        0x03, 0x01, 0x00, 0x01, 0x00, 0x00, 0x00, 0x00, 0x00, 0x0C, 0x00, 0x00,
    ];
    let results = dis_rs::parse(&bytes);
    assert_eq!(results.len(), 1);
    assert!(matches!(
        results[0],
        Err(DisError::UnsupportedProtocolVersion(3))
    ));
}

#[test]
fn inconsistent_length_error() {
    // A declared length below the twelve header bytes is rejected.
    let bytes: Vec<u8> = vec![
        0x06, 0x01, 0x00, 0x01, 0x00, 0x00, 0x00, 0x00, 0x00, 0x05, 0x00, 0x00,
    ];
    let results = dis_rs::parse(&bytes);
    assert_eq!(results.len(), 1);
    assert!(matches!(
        results[0],
        Err(DisError::InconsistentLength { declared: 5, actual: 12 })
    ));
}

#[test]
fn declared_length_beyond_buffer() {
    let bytes: Vec<u8> = vec![
        0x06, 0x01, 0x00, 0x01, 0x00, 0x00, 0x00, 0x00, 0x00, 0x20, 0x00, 0x00,
    ];
    let results = dis_rs::parse(&bytes);
    assert_eq!(results.len(), 1);
    assert!(matches!(
        results[0],
        Err(DisError::InsufficientBytes { needed: 32, available: 12 })
    ));
}

#[test]
fn forced_version_parsing() {
    // A version 7 Fire PDU parsed under a forced version 6 reads the last two
    // header bytes as plain padding instead of a status byte.
    let bytes: Vec<u8> = vec![
        0x07, 0x01, 0x00, 0x01, 0x00, 0x00, 0x00, 0x00, 0x00, 0x0C, 0x1A, 0x00,
    ];
    let as_v7 = dis_rs::parse(&bytes);
    assert!(as_v7[0].as_ref().unwrap().header.pdu_status.is_some());
    let as_v6 = dis_rs::parse_v6_pdus(&bytes);
    let h = &as_v6[0].as_ref().unwrap().header;
    assert!(h.pdu_status.is_none());
    assert_eq!(h.padding, 0x1A00);
    let as_version = dis_rs::parse_as_version(&bytes, ProtocolVersion::V6);
    assert_eq!(
        as_version[0].as_ref().unwrap().header.pdu_status,
        h.pdu_status
    );
    let v7 = dis_rs::parse_v7_pdus(&bytes);
    assert!(v7[0].as_ref().unwrap().header.pdu_status.is_some());
}

#[test]
fn marking_trims_nul_padding() {
    let bytes: Vec<u8> = vec![
        0x01, b'A', b'B', 0x00, 0x00, 0x00, 0x00, 0x00, 0x00, 0x00, 0x00, 0x00,
    ];
    let (marking, consumed) = parse_marking(&bytes, 0, 12).unwrap();
    assert_eq!(consumed, 12);
    assert_eq!(marking.marking_string, "AB");
}

#[test]
fn appearance_bitfield_exact_bytes() {
    let appearance = Appearance {
        general_appearance: GeneralAppearance {
            entity_paint_scheme: EntityPaintScheme::Camouflage,
            entity_mobility_kill: EntityMobilityKill::NoMobilityKill,
            entity_fire_power: EntityFirePower::NoFirePowerKill,
            entity_damage: EntityDamage::Destroyed,
            entity_smoke: EntitySmoke::NotSmoking,
            entity_trailing_effect: EntityTrailingEffect::Medium,
            entity_hatch_state: EntityHatchState::Open,
            entity_lights: EntityLights::RunningLightsOn,
            entity_flaming_effect: EntityFlamingEffect::FlamesPresent,
        },
        specific_appearance: SpecificAppearance::LandPlatform(LandPlatformsRecord {
            launcher: Launcher::Raised,
            camouflage_type: Camouflage::Winter,
            concealed: Concealed::Concealed,
            frozen_status: FrozenStatus::NotFrozen,
            power_plant_status: PowerPlantStatus::On,
            state: State::Active,
            tent: Tent::Extended,
            ramp: Ramp::Down,
        }),
    };
    let mut out: Vec<u8> = Vec::new();
    dis_rs::appearance::write_appearance(&mut out, &appearance);
    // General: paint 1, damage 3, trailing 2 (10 in binary, split across the
    // byte boundary), hatch 4, lights 1, flaming 1.
    assert_eq!(out[0], 0b1001_1001);
    assert_eq!(out[1], 0b0100_0011);
    // Land: launcher 1, camouflage 1, concealed 1, power plant 1, tent 1,
    // ramp 1 in the top bit of the second byte.
    assert_eq!(out[2], 0b1011_0101);
    assert_eq!(out[3], 0b1000_0000);
    let (back, _) =
        dis_rs::appearance::parse_appearance(&out, 0, 4, EntityKind::Platform, 1).unwrap();
    assert_eq!(back, appearance);
}

#[test]
fn life_form_appearance_dispatch() {
    let bytes: Vec<u8> = vec![0b0011_0100, 0b0110_0000];
    let (sa, _) = {
        let (a, n) = dis_rs::appearance::parse_appearance(
            &vec![0, 0, bytes[0], bytes[1]],
            0,
            4,
            EntityKind::LifeForm,
            0,
        )
        .unwrap();
        (a.specific_appearance, n)
    };
    assert_eq!(
        sa,
        SpecificAppearance::LifeForm(LifeFormsRecord {
            life_form_state: LifeFormsState::UprightRunning,
            frozen_status: FrozenStatus::Frozen,
            activity_state: ActivityState::Active,
            weapon_1: Weapon::Stowed,
            weapon_2: Weapon::Deployed,
        })
    );
}

#[test]
fn air_platform_appearance_dispatch() {
    let (a, _) = dis_rs::appearance::parse_appearance(
        &vec![0, 0, 0b1000_0101, 0],
        0,
        4,
        EntityKind::Platform,
        2,
    )
    .unwrap();
    assert_eq!(
        a.specific_appearance,
        SpecificAppearance::AirPlatform(AirPlatformsRecord {
            afterburner: Afterburner::On,
            frozen_status: FrozenStatus::Frozen,
            power_plant_status: PowerPlantStatus::Off,
            state: State::Deactivated,
        })
    );
}
