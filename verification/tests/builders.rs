use dis_rs::appearance::{GeneralAppearance, SpecificAppearance};
use dis_rs::builder::{GeneralAppearanceBuilder, LandPlatformBuilder};
use dis_rs::entity_state::{EntityMarking, EntityState, EntityStateValidationError};
use dis_rs::enumerations::{
    ActivityState, Afterburner, Camouflage, Concealed, Density, EntityDamage, EntityFirePower,
    EntityFlamingEffect, EntityHatchState, EntityLights, EntityMarkingCharacterSet,
    EntityMobilityKill, EntityPaintScheme, EntitySmoke, EntityTrailingEffect, FrozenStatus,
    Launcher, LaunchFlash, LifeFormsState, PduType, PowerPlantStatus, ProtocolFamily,
    ProtocolVersion, Ramp, State, Tent, Weapon,
};
use dis_rs::errors::DisError;
use dis_rs::header::{PduHeader, PduHeaderBuilder};
use dis_rs::siman::{Acknowledge, ActionResponse};

#[test]
fn pdu_header_builder_builds() {
    let header = PduHeaderBuilder::new()
        .protocol_version(ProtocolVersion::V6)
        .exercise_id(4)
        .pdu_type(PduType::Other)
        .protocol_family(ProtocolFamily::Other)
        .time_stamp(11)
        .pdu_length(12)
        .build()
        .unwrap();
    assert_eq!(
        header,
        PduHeader {
            protocol_version: ProtocolVersion::V6,
            exercise_id: 4,
            pdu_type: PduType::Other,
            protocol_family: ProtocolFamily::Other,
            time_stamp: 11,
            pdu_length: 12,
            pdu_status: None,
            padding: 0,
        }
    );
}

#[test]
fn pdu_header_builder_rejects_missing_field() {
    let r = PduHeaderBuilder::new()
        .protocol_version(ProtocolVersion::V6)
        .exercise_id(4)
        .build();
    assert!(r.is_err());
}

#[test]
fn pdu_header_builder_keeps_padding() {
    let header = PduHeaderBuilder::new()
        .protocol_version(ProtocolVersion::V6)
        .exercise_id(1)
        .pdu_type(PduType::Other)
        .protocol_family(ProtocolFamily::Other)
        .time_stamp(0)
        .pdu_length(12)
        .padding(7)
        .build()
        .unwrap();
    assert_eq!(header.padding, 7);
}

#[test]
fn general_appearance_builder_builds() {
    let built = GeneralAppearance::builder()
        .entity_paint_scheme(EntityPaintScheme::Camouflage)
        .entity_mobility_kill(EntityMobilityKill::MobilityKill)
        .entity_fire_power(EntityFirePower::NoFirePowerKill)
        .entity_damage(EntityDamage::SlightDamage)
        .entity_smoke(EntitySmoke::NotSmoking)
        .entity_trailing_effect(EntityTrailingEffect::Small)
        .entity_hatch_state(EntityHatchState::Popped)
        .entity_lights(EntityLights::NavigationLightsOn)
        .entity_flaming_effect(EntityFlamingEffect::NoFlaming)
        .build()
        .unwrap();
    assert_eq!(built.entity_paint_scheme, EntityPaintScheme::Camouflage);
    assert_eq!(built.entity_damage, EntityDamage::SlightDamage);
}

#[test]
fn general_appearance_builder_validate() {
    let partial = GeneralAppearanceBuilder::new()
        .entity_paint_scheme(EntityPaintScheme::UniformColor);
    assert!(!partial.validate());
    assert!(partial.build().is_err());
}

#[test]
fn land_platform_builder_builds() {
    let built = SpecificAppearance::builder_land_platform()
        .launcher(Launcher::Raised)
        .camouflage_type(Camouflage::Winter)
        .concealed(Concealed::Concealed)
        .frozen_status(FrozenStatus::NotFrozen)
        .power_plant_status(PowerPlantStatus::On)
        .state(State::Active)
        .tent(Tent::Extended)
        .ramp(Ramp::Down)
        .build()
        .unwrap();
    match built {
        SpecificAppearance::LandPlatform(r) => {
            assert_eq!(r.launcher, Launcher::Raised);
            assert_eq!(r.camouflage_type, Camouflage::Winter);
        },
        _ => panic!("expected a land platform record"),
    }
}

#[test]
fn land_platform_builder_rejects_missing_field() {
    let r = LandPlatformBuilder::new().launcher(Launcher::Raised).build();
    assert!(r.is_err());
}

#[test]
fn air_platform_builder_builds() {
    let built = SpecificAppearance::builder_air_platform()
        .afterburner(Afterburner::On)
        .frozen_status(FrozenStatus::NotFrozen)
        .power_plant_status(PowerPlantStatus::On)
        .state(State::Active)
        .build()
        .unwrap();
    assert!(matches!(built, SpecificAppearance::AirPlatform(_)));
}

#[test]
fn surface_platform_builder_builds() {
    let built = SpecificAppearance::builder_surface_platform()
        .frozen_status(FrozenStatus::Frozen)
        .power_plant_status(PowerPlantStatus::Off)
        .state(State::Deactivated)
        .build()
        .unwrap();
    assert!(matches!(built, SpecificAppearance::SurfacePlatform(_)));
}

#[test]
fn subsurface_platform_builder_builds() {
    let built = SpecificAppearance::builder_subsurface_platform()
        .frozen_status(FrozenStatus::NotFrozen)
        .power_plant_status(PowerPlantStatus::On)
        .state(State::Active)
        .build()
        .unwrap();
    assert!(matches!(built, SpecificAppearance::SubsurfacePlatform(_)));
}

#[test]
fn space_platform_builder_builds() {
    let built = SpecificAppearance::builder_space_platform()
        .frozen_status(FrozenStatus::NotFrozen)
        .power_plant_status(PowerPlantStatus::On)
        .state(State::Active)
        .build()
        .unwrap();
    assert!(matches!(built, SpecificAppearance::SpacePlatform(_)));
}

#[test]
fn guided_munition_builder_builds() {
    let built = SpecificAppearance::builder_guided_munition()
        .launch_flash(LaunchFlash::Present)
        .frozen_status(FrozenStatus::NotFrozen)
        .state(State::Active)
        .build()
        .unwrap();
    assert!(matches!(built, SpecificAppearance::GuidedMunition(_)));
}

#[test]
fn life_form_builder_builds() {
    let built = SpecificAppearance::builder_life_form()
        .life_form_state(LifeFormsState::Kneeling)
        .frozen_status(FrozenStatus::NotFrozen)
        .activity_state(ActivityState::Active)
        .weapon_1(Weapon::Deployed)
        .weapon_2(Weapon::NotPresent)
        .build()
        .unwrap();
    assert!(matches!(built, SpecificAppearance::LifeForm(_)));
}

#[test]
fn environmental_builder_builds() {
    let built = SpecificAppearance::builder_environmental()
        .density(Density::Hazy)
        .build()
        .unwrap();
    assert!(matches!(built, SpecificAppearance::Environmental(_)));
}

#[test]
fn environmental_builder_rejects_missing_field() {
    assert!(SpecificAppearance::builder_environmental().build().is_err());
}

#[test]
fn entity_state_builder_rejects_missing_field() {
    let r = EntityState::builder()
        .marking(EntityMarking {
            marking_character_set: EntityMarkingCharacterSet::ASCII,
            marking_string: "X".to_string(),
        })
        .build();
    assert!(matches!(
        r,
        Err(EntityStateValidationError::SomeFieldNotOkError)
    ));
}

#[test]
fn acknowledge_builder_rejects_missing_field() {
    let r = Acknowledge::builder().request_id(1).build();
    assert!(matches!(r, Err(DisError::MissingField)));
}

#[test]
fn acknowledge_into_builder_round_trip() {
    let body = Acknowledge {
        originating_id: Default::default(),
        receiving_id: Default::default(),
        acknowledge_flag: dis_rs::enumerations::AcknowledgeFlag::StartResume,
        response_flag: dis_rs::enumerations::ResponseFlag::PendingOperatorAction,
        request_id: 17,
    };
    let rebuilt = body.into_builder().build().unwrap();
    assert_eq!(rebuilt, body);
}

#[test]
fn action_response_builder_rejects_missing_field() {
    let r = ActionResponse::builder().request_id(5).build();
    assert!(matches!(r, Err(DisError::MissingField)));
}

#[test]
fn action_response_into_builder_round_trip() {
    let body = ActionResponse {
        originating_id: Default::default(),
        receiving_id: Default::default(),
        request_id: 5,
        request_status: dis_rs::enumerations::RequestStatus::Pending,
        fixed_datum_records: vec![],
        variable_datum_records: vec![],
    };
    let rebuilt = body.clone().into_builder().build().unwrap();
    assert_eq!(rebuilt, body);
}
