//! The Entity State appearance records: a 16-bit general appearance bitfield
//! shared by every entity, and a 16-bit specific appearance bitfield whose
//! layout is selected by the entity type's (kind, domain) pair. All sub-byte
//! fields pack from the most-significant bit of the first byte onwards.

use vstd::prelude::*;
use crate::bytes::bytes_at;
use crate::enumerations::{
    ActivityState, Afterburner, Camouflage, Concealed, Density, EntityDamage, EntityFirePower,
    EntityFlamingEffect, EntityHatchState, EntityKind, EntityLights, EntityMobilityKill,
    EntityPaintScheme, EntitySmoke, EntityTrailingEffect, FrozenStatus, Launcher, LaunchFlash,
    LifeFormsState, PowerPlantStatus, Ramp, State, Tent, Weapon,
};
use crate::errors::DisError;

verus! {

pub const APPEARANCE_LEN: usize = 4;

// ---------------------------------------------------------------------------
// General appearance
// ---------------------------------------------------------------------------

/// The 16-bit general appearance record, common to every entity kind.
#[derive(Clone, Copy, Debug, PartialEq, Eq, Structural)]
pub struct GeneralAppearance {
    pub entity_paint_scheme: EntityPaintScheme,
    pub entity_mobility_kill: EntityMobilityKill,
    pub entity_fire_power: EntityFirePower,
    pub entity_damage: EntityDamage,
    pub entity_smoke: EntitySmoke,
    pub entity_trailing_effect: EntityTrailingEffect,
    pub entity_hatch_state: EntityHatchState,
    pub entity_lights: EntityLights,
    pub entity_flaming_effect: EntityFlamingEffect,
}

impl GeneralAppearance {
    /// Every field carries a code that fits its bit width.
    pub open spec fn wf(self) -> bool {
        &&& self.entity_paint_scheme.wf() && self.entity_paint_scheme.raw() < 2
        &&& self.entity_mobility_kill.wf() && self.entity_mobility_kill.raw() < 2
        &&& self.entity_fire_power.wf() && self.entity_fire_power.raw() < 2
        &&& self.entity_damage.wf() && self.entity_damage.raw() < 4
        &&& self.entity_smoke.wf() && self.entity_smoke.raw() < 4
        &&& self.entity_trailing_effect.wf() && self.entity_trailing_effect.raw() < 4
        &&& self.entity_hatch_state.wf() && self.entity_hatch_state.raw() < 8
        &&& self.entity_lights.wf() && self.entity_lights.raw() < 8
        &&& self.entity_flaming_effect.wf() && self.entity_flaming_effect.raw() < 2
    }
}

/// Packs the general appearance MSB-first: paint(1) mobility(1) fire-power(1)
/// damage(2) smoke(2) trailing(2) hatch(3) lights(3) flaming(1).
pub open spec fn enc_general_appearance(g: GeneralAppearance) -> Seq<u8> {
    seq![
        (g.entity_paint_scheme.raw() << 7) | (g.entity_mobility_kill.raw() << 6) | (
        g.entity_fire_power.raw() << 5) | (g.entity_damage.raw() << 3) | (g.entity_smoke.raw()
            << 1) | (g.entity_trailing_effect.raw() >> 1),
        ((g.entity_trailing_effect.raw() & 1) << 7) | (g.entity_hatch_state.raw() << 4) | (
        g.entity_lights.raw() << 1) | g.entity_flaming_effect.raw(),
    ]
}

pub open spec fn dec_general_appearance(b: Seq<u8>, i: int) -> GeneralAppearance {
    GeneralAppearance {
        entity_paint_scheme: EntityPaintScheme::from_raw(b[i] >> 7),
        entity_mobility_kill: EntityMobilityKill::from_raw((b[i] >> 6) & 1),
        entity_fire_power: EntityFirePower::from_raw((b[i] >> 5) & 1),
        entity_damage: EntityDamage::from_raw((b[i] >> 3) & 3),
        entity_smoke: EntitySmoke::from_raw((b[i] >> 1) & 3),
        entity_trailing_effect: EntityTrailingEffect::from_raw(
            ((b[i] & 1) << 1) | (b[i + 1] >> 7),
        ),
        entity_hatch_state: EntityHatchState::from_raw((b[i + 1] >> 4) & 7),
        entity_lights: EntityLights::from_raw((b[i + 1] >> 1) & 7),
        entity_flaming_effect: EntityFlamingEffect::from_raw(b[i + 1] & 1),
    }
}

pub proof fn lemma_dec_general_appearance_wf(b: Seq<u8>, i: int)
    ensures
        dec_general_appearance(b, i).wf(),
{
    let b0 = b[i];
    let b1 = b[i + 1];
    assert((b0 >> 7) < 2 && ((b0 >> 6) & 1) < 2 && ((b0 >> 5) & 1) < 2 && ((b0 >> 3) & 3) < 4 && ((
    b0 >> 1) & 3) < 4 && (((b0 & 1) << 1) | (b1 >> 7)) < 4 && ((b1 >> 4) & 7) < 8 && ((b1 >> 1) & 7)
        < 8 && (b1 & 1) < 2) by (bit_vector);
}

pub proof fn lemma_dec_enc_general_appearance(s: Seq<u8>, i: int, g: GeneralAppearance)
    requires
        g.wf(),
        bytes_at(s, i, enc_general_appearance(g)),
    ensures
        dec_general_appearance(s, i) == g,
{
    let p = g.entity_paint_scheme.raw();
    let m = g.entity_mobility_kill.raw();
    let f = g.entity_fire_power.raw();
    let d = g.entity_damage.raw();
    let sm = g.entity_smoke.raw();
    let t = g.entity_trailing_effect.raw();
    let h = g.entity_hatch_state.raw();
    let l = g.entity_lights.raw();
    let fl = g.entity_flaming_effect.raw();
    let b0 = (p << 7) | (m << 6) | (f << 5) | (d << 3) | (sm << 1) | (t >> 1);
    let b1 = ((t & 1) << 7) | (h << 4) | (l << 1) | fl;
    assert(s[i] == b0 && s[i + 1] == b1);
    assert(p < 2 && m < 2 && f < 2 && d < 4 && sm < 4 && t < 4 && h < 8 && l < 8 && fl < 2 ==> {
        let c0 = (p << 7) | (m << 6) | (f << 5) | (d << 3) | (sm << 1) | (t >> 1);
        let c1 = ((t & 1) << 7) | (h << 4) | (l << 1) | fl;
        (c0 >> 7) == p && ((c0 >> 6) & 1) == m && ((c0 >> 5) & 1) == f && ((c0 >> 3) & 3) == d && ((
        c0 >> 1) & 3) == sm && (((c0 & 1) << 1) | (c1 >> 7)) == t && ((c1 >> 4) & 7) == h && ((c1
            >> 1) & 7) == l && (c1 & 1) == fl
    }) by (bit_vector);
}

// ---------------------------------------------------------------------------
// Specific appearance records
// ---------------------------------------------------------------------------

#[derive(Clone, Copy, Debug, PartialEq, Eq, Structural)]
pub struct LandPlatformsRecord {
    pub launcher: Launcher,
    pub camouflage_type: Camouflage,
    pub concealed: Concealed,
    pub frozen_status: FrozenStatus,
    pub power_plant_status: PowerPlantStatus,
    pub state: State,
    pub tent: Tent,
    pub ramp: Ramp,
}

#[derive(Clone, Copy, Debug, PartialEq, Eq, Structural)]
pub struct AirPlatformsRecord {
    pub afterburner: Afterburner,
    pub frozen_status: FrozenStatus,
    pub power_plant_status: PowerPlantStatus,
    pub state: State,
}

#[derive(Clone, Copy, Debug, PartialEq, Eq, Structural)]
pub struct SurfacePlatformRecord {
    pub frozen_status: FrozenStatus,
    pub power_plant_status: PowerPlantStatus,
    pub state: State,
}

#[derive(Clone, Copy, Debug, PartialEq, Eq, Structural)]
pub struct SubsurfacePlatformsRecord {
    pub frozen_status: FrozenStatus,
    pub power_plant_status: PowerPlantStatus,
    pub state: State,
}

#[derive(Clone, Copy, Debug, PartialEq, Eq, Structural)]
pub struct SpacePlatformsRecord {
    pub frozen_status: FrozenStatus,
    pub power_plant_status: PowerPlantStatus,
    pub state: State,
}

#[derive(Clone, Copy, Debug, PartialEq, Eq, Structural)]
pub struct GuidedMunitionsRecord {
    pub launch_flash: LaunchFlash,
    pub frozen_status: FrozenStatus,
    pub state: State,
}

#[derive(Clone, Copy, Debug, PartialEq, Eq, Structural)]
pub struct LifeFormsRecord {
    pub life_form_state: LifeFormsState,
    pub frozen_status: FrozenStatus,
    pub activity_state: ActivityState,
    pub weapon_1: Weapon,
    pub weapon_2: Weapon,
}

#[derive(Clone, Copy, Debug, PartialEq, Eq, Structural)]
pub struct EnvironmentalsRecord {
    pub density: Density,
}

/// The specific appearance: one record shape per entity domain, plus a raw
/// two-byte fallback for entity types whose domain has no dedicated layout.
#[derive(Clone, Copy, Debug, PartialEq, Eq, Structural)]
pub enum SpecificAppearance {
    LandPlatform(LandPlatformsRecord),
    AirPlatform(AirPlatformsRecord),
    SurfacePlatform(SurfacePlatformRecord),
    SubsurfacePlatform(SubsurfacePlatformsRecord),
    SpacePlatform(SpacePlatformsRecord),
    GuidedMunition(GuidedMunitionsRecord),
    LifeForm(LifeFormsRecord),
    Environmental(EnvironmentalsRecord),
    Other(u8, u8),
}

impl LandPlatformsRecord {
    pub open spec fn wf(self) -> bool {
        &&& self.launcher.wf() && self.launcher.raw() < 2
        &&& self.camouflage_type.wf() && self.camouflage_type.raw() < 4
        &&& self.concealed.wf() && self.concealed.raw() < 2
        &&& self.frozen_status.wf() && self.frozen_status.raw() < 2
        &&& self.power_plant_status.wf() && self.power_plant_status.raw() < 2
        &&& self.state.wf() && self.state.raw() < 2
        &&& self.tent.wf() && self.tent.raw() < 2
        &&& self.ramp.wf() && self.ramp.raw() < 2
    }
}

impl AirPlatformsRecord {
    pub open spec fn wf(self) -> bool {
        &&& self.afterburner.wf() && self.afterburner.raw() < 2
        &&& self.frozen_status.wf() && self.frozen_status.raw() < 2
        &&& self.power_plant_status.wf() && self.power_plant_status.raw() < 2
        &&& self.state.wf() && self.state.raw() < 2
    }
}

impl SurfacePlatformRecord {
    pub open spec fn wf(self) -> bool {
        &&& self.frozen_status.wf() && self.frozen_status.raw() < 2
        &&& self.power_plant_status.wf() && self.power_plant_status.raw() < 2
        &&& self.state.wf() && self.state.raw() < 2
    }
}

impl SubsurfacePlatformsRecord {
    pub open spec fn wf(self) -> bool {
        &&& self.frozen_status.wf() && self.frozen_status.raw() < 2
        &&& self.power_plant_status.wf() && self.power_plant_status.raw() < 2
        &&& self.state.wf() && self.state.raw() < 2
    }
}

impl SpacePlatformsRecord {
    pub open spec fn wf(self) -> bool {
        &&& self.frozen_status.wf() && self.frozen_status.raw() < 2
        &&& self.power_plant_status.wf() && self.power_plant_status.raw() < 2
        &&& self.state.wf() && self.state.raw() < 2
    }
}

impl GuidedMunitionsRecord {
    pub open spec fn wf(self) -> bool {
        &&& self.launch_flash.wf() && self.launch_flash.raw() < 2
        &&& self.frozen_status.wf() && self.frozen_status.raw() < 2
        &&& self.state.wf() && self.state.raw() < 2
    }
}

impl LifeFormsRecord {
    pub open spec fn wf(self) -> bool {
        &&& self.life_form_state.wf() && self.life_form_state.raw() < 16
        &&& self.frozen_status.wf() && self.frozen_status.raw() < 2
        &&& self.activity_state.wf() && self.activity_state.raw() < 2
        &&& self.weapon_1.wf() && self.weapon_1.raw() < 4
        &&& self.weapon_2.wf() && self.weapon_2.raw() < 4
    }
}

impl EnvironmentalsRecord {
    pub open spec fn wf(self) -> bool {
        self.density.wf() && self.density.raw() < 16
    }
}

impl SpecificAppearance {
    pub open spec fn wf(self) -> bool {
        match self {
            SpecificAppearance::LandPlatform(r) => r.wf(),
            SpecificAppearance::AirPlatform(r) => r.wf(),
            SpecificAppearance::SurfacePlatform(r) => r.wf(),
            SpecificAppearance::SubsurfacePlatform(r) => r.wf(),
            SpecificAppearance::SpacePlatform(r) => r.wf(),
            SpecificAppearance::GuidedMunition(r) => r.wf(),
            SpecificAppearance::LifeForm(r) => r.wf(),
            SpecificAppearance::Environmental(r) => r.wf(),
            SpecificAppearance::Other(_, _) => true,
        }
    }

    /// The record shape that the dispatch table selects for a (kind, domain)
    /// pair: land, air, surface, subsurface and space platforms get their own
    /// layouts, as do munitions, life forms and environmentals; every other
    /// pair falls back to the raw two-byte record.
    pub open spec fn matches_type(self, kind: EntityKind, domain: u8) -> bool {
        match (kind, domain) {
            (EntityKind::Platform, 1u8) => self is LandPlatform,
            (EntityKind::Platform, 2u8) => self is AirPlatform,
            (EntityKind::Platform, 3u8) => self is SurfacePlatform,
            (EntityKind::Platform, 4u8) => self is SubsurfacePlatform,
            (EntityKind::Platform, 5u8) => self is SpacePlatform,
            (EntityKind::Platform, _) => self is Other,
            (EntityKind::Munition, _) => self is GuidedMunition,
            (EntityKind::LifeForm, _) => self is LifeForm,
            (EntityKind::Environmental, _) => self is Environmental,
            (_, _) => self is Other,
        }
    }
}

pub open spec fn enc_specific_appearance(a: SpecificAppearance) -> Seq<u8> {
    match a {
        SpecificAppearance::LandPlatform(r) => seq![
            (r.launcher.raw() << 7) | (r.camouflage_type.raw() << 5) | (r.concealed.raw() << 4) | (
            r.frozen_status.raw() << 3) | (r.power_plant_status.raw() << 2) | (r.state.raw() << 1)
                | r.tent.raw(),
            r.ramp.raw() << 7,
        ],
        SpecificAppearance::AirPlatform(r) => seq![
            (r.afterburner.raw() << 7) | (r.frozen_status.raw() << 2) | (r.power_plant_status.raw()
                << 1) | r.state.raw(),
            0u8,
        ],
        SpecificAppearance::SurfacePlatform(r) => seq![
            (r.frozen_status.raw() << 2) | (r.power_plant_status.raw() << 1) | r.state.raw(),
            0u8,
        ],
        SpecificAppearance::SubsurfacePlatform(r) => seq![
            (r.frozen_status.raw() << 2) | (r.power_plant_status.raw() << 1) | r.state.raw(),
            0u8,
        ],
        SpecificAppearance::SpacePlatform(r) => seq![
            (r.frozen_status.raw() << 2) | (r.power_plant_status.raw() << 1) | r.state.raw(),
            0u8,
        ],
        SpecificAppearance::GuidedMunition(r) => seq![
            (r.launch_flash.raw() << 7) | (r.frozen_status.raw() << 2) | r.state.raw(),
            0u8,
        ],
        SpecificAppearance::LifeForm(r) => seq![
            (r.life_form_state.raw() << 4) | (r.frozen_status.raw() << 2)
                | r.activity_state.raw(),
            (r.weapon_1.raw() << 6) | (r.weapon_2.raw() << 4),
        ],
        SpecificAppearance::Environmental(r) => seq![r.density.raw() << 4, 0u8],
        SpecificAppearance::Other(b0, b1) => seq![b0, b1],
    }
}

pub open spec fn dec_specific_appearance(b: Seq<u8>, i: int, kind: EntityKind, domain: u8)
    -> SpecificAppearance {
    match (kind, domain) {
        (EntityKind::Platform, 1u8) => SpecificAppearance::LandPlatform(
            LandPlatformsRecord {
                launcher: Launcher::from_raw(b[i] >> 7),
                camouflage_type: Camouflage::from_raw((b[i] >> 5) & 3),
                concealed: Concealed::from_raw((b[i] >> 4) & 1),
                frozen_status: FrozenStatus::from_raw((b[i] >> 3) & 1),
                power_plant_status: PowerPlantStatus::from_raw((b[i] >> 2) & 1),
                state: State::from_raw((b[i] >> 1) & 1),
                tent: Tent::from_raw(b[i] & 1),
                ramp: Ramp::from_raw(b[i + 1] >> 7),
            },
        ),
        (EntityKind::Platform, 2u8) => SpecificAppearance::AirPlatform(
            AirPlatformsRecord {
                afterburner: Afterburner::from_raw(b[i] >> 7),
                frozen_status: FrozenStatus::from_raw((b[i] >> 2) & 1),
                power_plant_status: PowerPlantStatus::from_raw((b[i] >> 1) & 1),
                state: State::from_raw(b[i] & 1),
            },
        ),
        (EntityKind::Platform, 3u8) => SpecificAppearance::SurfacePlatform(
            SurfacePlatformRecord {
                frozen_status: FrozenStatus::from_raw((b[i] >> 2) & 1),
                power_plant_status: PowerPlantStatus::from_raw((b[i] >> 1) & 1),
                state: State::from_raw(b[i] & 1),
            },
        ),
        (EntityKind::Platform, 4u8) => SpecificAppearance::SubsurfacePlatform(
            SubsurfacePlatformsRecord {
                frozen_status: FrozenStatus::from_raw((b[i] >> 2) & 1),
                power_plant_status: PowerPlantStatus::from_raw((b[i] >> 1) & 1),
                state: State::from_raw(b[i] & 1),
            },
        ),
        (EntityKind::Platform, 5u8) => SpecificAppearance::SpacePlatform(
            SpacePlatformsRecord {
                frozen_status: FrozenStatus::from_raw((b[i] >> 2) & 1),
                power_plant_status: PowerPlantStatus::from_raw((b[i] >> 1) & 1),
                state: State::from_raw(b[i] & 1),
            },
        ),
        (EntityKind::Platform, _) => SpecificAppearance::Other(b[i], b[i + 1]),
        (EntityKind::Munition, _) => SpecificAppearance::GuidedMunition(
            GuidedMunitionsRecord {
                launch_flash: LaunchFlash::from_raw(b[i] >> 7),
                frozen_status: FrozenStatus::from_raw((b[i] >> 2) & 1),
                state: State::from_raw(b[i] & 1),
            },
        ),
        (EntityKind::LifeForm, _) => SpecificAppearance::LifeForm(
            LifeFormsRecord {
                life_form_state: LifeFormsState::from_raw(b[i] >> 4),
                frozen_status: FrozenStatus::from_raw((b[i] >> 2) & 1),
                activity_state: ActivityState::from_raw(b[i] & 1),
                weapon_1: Weapon::from_raw((b[i + 1] >> 6) & 3),
                weapon_2: Weapon::from_raw((b[i + 1] >> 4) & 3),
            },
        ),
        (EntityKind::Environmental, _) => SpecificAppearance::Environmental(
            EnvironmentalsRecord { density: Density::from_raw(b[i] >> 4) },
        ),
        (_, _) => SpecificAppearance::Other(b[i], b[i + 1]),
    }
}

pub proof fn lemma_dec_specific_appearance_wf(b: Seq<u8>, i: int, kind: EntityKind, domain: u8)
    ensures
        dec_specific_appearance(b, i, kind, domain).wf(),
        dec_specific_appearance(b, i, kind, domain).matches_type(kind, domain),
{
    let b0 = b[i];
    let b1 = b[i + 1];
    assert((b0 >> 7) < 2 && ((b0 >> 5) & 3) < 4 && ((b0 >> 4) & 1) < 2 && ((b0 >> 3) & 1) < 2 && ((
    b0 >> 2) & 1) < 2 && ((b0 >> 1) & 1) < 2 && (b0 & 1) < 2 && (b1 >> 7) < 2 && (b0 >> 4) < 16 && (
    (b1 >> 6) & 3) < 4 && ((b1 >> 4) & 3) < 4) by (bit_vector);
}

pub proof fn lemma_dec_enc_specific_appearance(
    s: Seq<u8>,
    i: int,
    a: SpecificAppearance,
    kind: EntityKind,
    domain: u8,
)
    requires
        a.wf(),
        a.matches_type(kind, domain),
        bytes_at(s, i, enc_specific_appearance(a)),
    ensures
        dec_specific_appearance(s, i, kind, domain) == a,
{
    assert(s[i] == enc_specific_appearance(a)[0]);
    assert(s[i + 1] == enc_specific_appearance(a)[1]);
    match a {
        SpecificAppearance::LandPlatform(r) => {
            let la = r.launcher.raw();
            let ca = r.camouflage_type.raw();
            let co = r.concealed.raw();
            let fr = r.frozen_status.raw();
            let pp = r.power_plant_status.raw();
            let st = r.state.raw();
            let te = r.tent.raw();
            let ra = r.ramp.raw();
            assert(la < 2 && ca < 4 && co < 2 && fr < 2 && pp < 2 && st < 2 && te < 2 && ra < 2
                ==> {
                let c0 = (la << 7) | (ca << 5) | (co << 4) | (fr << 3) | (pp << 2) | (st << 1)
                    | te;
                let c1 = ra << 7;
                (c0 >> 7) == la && ((c0 >> 5) & 3) == ca && ((c0 >> 4) & 1) == co && ((c0 >> 3) & 1)
                    == fr && ((c0 >> 2) & 1) == pp && ((c0 >> 1) & 1) == st && (c0 & 1) == te && (c1
                    >> 7) == ra
            }) by (bit_vector);
        },
        SpecificAppearance::AirPlatform(r) => {
            let ab = r.afterburner.raw();
            let fr = r.frozen_status.raw();
            let pp = r.power_plant_status.raw();
            let st = r.state.raw();
            assert(ab < 2 && fr < 2 && pp < 2 && st < 2 ==> {
                let c0 = (ab << 7) | (fr << 2) | (pp << 1) | st;
                (c0 >> 7) == ab && ((c0 >> 2) & 1) == fr && ((c0 >> 1) & 1) == pp && (c0 & 1) == st
            }) by (bit_vector);
        },
        SpecificAppearance::SurfacePlatform(r) => {
            let fr = r.frozen_status.raw();
            let pp = r.power_plant_status.raw();
            let st = r.state.raw();
            assert(fr < 2 && pp < 2 && st < 2 ==> {
                let c0 = (fr << 2) | (pp << 1) | st;
                ((c0 >> 2) & 1) == fr && ((c0 >> 1) & 1) == pp && (c0 & 1) == st
            }) by (bit_vector);
        },
        SpecificAppearance::SubsurfacePlatform(r) => {
            let fr = r.frozen_status.raw();
            let pp = r.power_plant_status.raw();
            let st = r.state.raw();
            assert(fr < 2 && pp < 2 && st < 2 ==> {
                let c0 = (fr << 2) | (pp << 1) | st;
                ((c0 >> 2) & 1) == fr && ((c0 >> 1) & 1) == pp && (c0 & 1) == st
            }) by (bit_vector);
        },
        SpecificAppearance::SpacePlatform(r) => {
            let fr = r.frozen_status.raw();
            let pp = r.power_plant_status.raw();
            let st = r.state.raw();
            assert(fr < 2 && pp < 2 && st < 2 ==> {
                let c0 = (fr << 2) | (pp << 1) | st;
                ((c0 >> 2) & 1) == fr && ((c0 >> 1) & 1) == pp && (c0 & 1) == st
            }) by (bit_vector);
        },
        SpecificAppearance::GuidedMunition(r) => {
            let lf = r.launch_flash.raw();
            let fr = r.frozen_status.raw();
            let st = r.state.raw();
            assert(lf < 2 && fr < 2 && st < 2 ==> {
                let c0 = (lf << 7) | (fr << 2) | st;
                (c0 >> 7) == lf && ((c0 >> 2) & 1) == fr && (c0 & 1) == st
            }) by (bit_vector);
        },
        SpecificAppearance::LifeForm(r) => {
            let ls = r.life_form_state.raw();
            let fr = r.frozen_status.raw();
            let ac = r.activity_state.raw();
            let w1 = r.weapon_1.raw();
            let w2 = r.weapon_2.raw();
            assert(ls < 16 && fr < 2 && ac < 2 && w1 < 4 && w2 < 4 ==> {
                let c0 = (ls << 4) | (fr << 2) | ac;
                let c1 = (w1 << 6) | (w2 << 4);
                (c0 >> 4) == ls && ((c0 >> 2) & 1) == fr && (c0 & 1) == ac && ((c1 >> 6) & 3) == w1
                    && ((c1 >> 4) & 3) == w2
            }) by (bit_vector);
        },
        SpecificAppearance::Environmental(r) => {
            let de = r.density.raw();
            assert(de < 16 ==> ((de << 4) >> 4) == de) by (bit_vector);
        },
        SpecificAppearance::Other(_, _) => {},
    }
}

// ---------------------------------------------------------------------------
// The combined appearance field
// ---------------------------------------------------------------------------

/// The 32-bit appearance field of the Entity State body: the general record
/// followed by the domain-specific record.
#[derive(Clone, Copy, Debug, PartialEq, Eq, Structural)]
pub struct Appearance {
    pub general_appearance: GeneralAppearance,
    pub specific_appearance: SpecificAppearance,
}

impl Appearance {
    pub open spec fn wf(self) -> bool {
        self.general_appearance.wf() && self.specific_appearance.wf()
    }
}

pub open spec fn enc_appearance(a: Appearance) -> Seq<u8> {
    enc_general_appearance(a.general_appearance) + enc_specific_appearance(a.specific_appearance)
}

pub open spec fn dec_appearance(b: Seq<u8>, i: int, kind: EntityKind, domain: u8) -> Appearance {
    Appearance {
        general_appearance: dec_general_appearance(b, i),
        specific_appearance: dec_specific_appearance(b, i + 2, kind, domain),
    }
}

pub proof fn lemma_dec_enc_appearance(
    s: Seq<u8>,
    i: int,
    a: Appearance,
    kind: EntityKind,
    domain: u8,
)
    requires
        a.wf(),
        a.specific_appearance.matches_type(kind, domain),
        bytes_at(s, i, enc_appearance(a)),
    ensures
        dec_appearance(s, i, kind, domain) == a,
{
    crate::bytes::lemma_bytes_at_split(
        s,
        i,
        enc_general_appearance(a.general_appearance),
        enc_specific_appearance(a.specific_appearance),
    );
    lemma_dec_enc_general_appearance(s, i, a.general_appearance);
    lemma_dec_enc_specific_appearance(s, i + 2, a.specific_appearance, kind, domain);
}

/// Parses the 4-byte appearance field, dispatching the specific record's
/// layout on the entity type's (kind, domain) pair.
pub fn parse_appearance(input: &Vec<u8>, pos: usize, end: usize, kind: EntityKind, domain: u8) -> (r:
    Result<(Appearance, usize), DisError>)
    requires
        end <= input@.len(),
    ensures
        r is Ok <==> pos + APPEARANCE_LEN <= end,
        r matches Ok((v, n)) ==> v == dec_appearance(input@, pos as int, kind, domain) && n == pos
            + APPEARANCE_LEN && v.wf() && v.specific_appearance.matches_type(kind, domain),
        r matches Err(e) ==> e is InsufficientBytes,
{
    if pos <= end && end - pos >= APPEARANCE_LEN {
        let b0 = input[pos];
        let b1 = input[pos + 1];
        let general_appearance = GeneralAppearance {
            entity_paint_scheme: EntityPaintScheme::from_u8(b0 >> 7),
            entity_mobility_kill: EntityMobilityKill::from_u8((b0 >> 6) & 1),
            entity_fire_power: EntityFirePower::from_u8((b0 >> 5) & 1),
            entity_damage: EntityDamage::from_u8((b0 >> 3) & 3),
            entity_smoke: EntitySmoke::from_u8((b0 >> 1) & 3),
            entity_trailing_effect: EntityTrailingEffect::from_u8(((b0 & 1) << 1) | (b1 >> 7)),
            entity_hatch_state: EntityHatchState::from_u8((b1 >> 4) & 7),
            entity_lights: EntityLights::from_u8((b1 >> 1) & 7),
            entity_flaming_effect: EntityFlamingEffect::from_u8(b1 & 1),
        };
        let specific_appearance = parse_specific_record(input[pos + 2], input[pos + 3], kind,
            domain);
        proof {
            lemma_dec_general_appearance_wf(input@, pos as int);
            lemma_dec_specific_appearance_wf(input@, pos + 2, kind, domain);
        }
        Ok((Appearance { general_appearance, specific_appearance }, pos + APPEARANCE_LEN))
    } else {
        Err(DisError::InsufficientBytes {
            needed: APPEARANCE_LEN,
            available: if pos <= end { end - pos } else { 0 },
        })
    }
}

/// Unpacks the two specific-appearance bytes per the dispatch table.
fn parse_specific_record(b0: u8, b1: u8, kind: EntityKind, domain: u8) -> (r: SpecificAppearance)
    ensures
        r == dec_specific_appearance(seq![b0, b1], 0, kind, domain),
{
    match (kind, domain) {
        (EntityKind::Platform, 1u8) => SpecificAppearance::LandPlatform(
            LandPlatformsRecord {
                launcher: Launcher::from_u8(b0 >> 7),
                camouflage_type: Camouflage::from_u8((b0 >> 5) & 3),
                concealed: Concealed::from_u8((b0 >> 4) & 1),
                frozen_status: FrozenStatus::from_u8((b0 >> 3) & 1),
                power_plant_status: PowerPlantStatus::from_u8((b0 >> 2) & 1),
                state: State::from_u8((b0 >> 1) & 1),
                tent: Tent::from_u8(b0 & 1),
                ramp: Ramp::from_u8(b1 >> 7),
            },
        ),
        (EntityKind::Platform, 2u8) => SpecificAppearance::AirPlatform(
            AirPlatformsRecord {
                afterburner: Afterburner::from_u8(b0 >> 7),
                frozen_status: FrozenStatus::from_u8((b0 >> 2) & 1),
                power_plant_status: PowerPlantStatus::from_u8((b0 >> 1) & 1),
                state: State::from_u8(b0 & 1),
            },
        ),
        (EntityKind::Platform, 3u8) => SpecificAppearance::SurfacePlatform(
            SurfacePlatformRecord {
                frozen_status: FrozenStatus::from_u8((b0 >> 2) & 1),
                power_plant_status: PowerPlantStatus::from_u8((b0 >> 1) & 1),
                state: State::from_u8(b0 & 1),
            },
        ),
        (EntityKind::Platform, 4u8) => SpecificAppearance::SubsurfacePlatform(
            SubsurfacePlatformsRecord {
                frozen_status: FrozenStatus::from_u8((b0 >> 2) & 1),
                power_plant_status: PowerPlantStatus::from_u8((b0 >> 1) & 1),
                state: State::from_u8(b0 & 1),
            },
        ),
        (EntityKind::Platform, 5u8) => SpecificAppearance::SpacePlatform(
            SpacePlatformsRecord {
                frozen_status: FrozenStatus::from_u8((b0 >> 2) & 1),
                power_plant_status: PowerPlantStatus::from_u8((b0 >> 1) & 1),
                state: State::from_u8(b0 & 1),
            },
        ),
        (EntityKind::Platform, _) => SpecificAppearance::Other(b0, b1),
        (EntityKind::Munition, _) => SpecificAppearance::GuidedMunition(
            GuidedMunitionsRecord {
                launch_flash: LaunchFlash::from_u8(b0 >> 7),
                frozen_status: FrozenStatus::from_u8((b0 >> 2) & 1),
                state: State::from_u8(b0 & 1),
            },
        ),
        (EntityKind::LifeForm, _) => SpecificAppearance::LifeForm(
            LifeFormsRecord {
                life_form_state: LifeFormsState::from_u8(b0 >> 4),
                frozen_status: FrozenStatus::from_u8((b0 >> 2) & 1),
                activity_state: ActivityState::from_u8(b0 & 1),
                weapon_1: Weapon::from_u8((b1 >> 6) & 3),
                weapon_2: Weapon::from_u8((b1 >> 4) & 3),
            },
        ),
        (EntityKind::Environmental, _) => SpecificAppearance::Environmental(
            EnvironmentalsRecord { density: Density::from_u8(b0 >> 4) },
        ),
        (_, _) => SpecificAppearance::Other(b0, b1),
    }
}

/// Serializes the 4-byte appearance field.
pub fn write_appearance(out: &mut Vec<u8>, a: &Appearance)
    ensures
        final(out)@ == old(out)@ + enc_appearance(*a),
{
    let g = &a.general_appearance;
    out.push((g.entity_paint_scheme.to_u8() << 7) | (g.entity_mobility_kill.to_u8() << 6) | (
    g.entity_fire_power.to_u8() << 5) | (g.entity_damage.to_u8() << 3) | (g.entity_smoke.to_u8()
        << 1) | (g.entity_trailing_effect.to_u8() >> 1));
    out.push(((g.entity_trailing_effect.to_u8() & 1) << 7) | (g.entity_hatch_state.to_u8() << 4) | (
    g.entity_lights.to_u8() << 1) | g.entity_flaming_effect.to_u8());
    match &a.specific_appearance {
        SpecificAppearance::LandPlatform(r) => {
            out.push((r.launcher.to_u8() << 7) | (r.camouflage_type.to_u8() << 5) | (
            r.concealed.to_u8() << 4) | (r.frozen_status.to_u8() << 3) | (
            r.power_plant_status.to_u8() << 2) | (r.state.to_u8() << 1) | r.tent.to_u8());
            out.push(r.ramp.to_u8() << 7);
        },
        SpecificAppearance::AirPlatform(r) => {
            out.push((r.afterburner.to_u8() << 7) | (r.frozen_status.to_u8() << 2) | (
            r.power_plant_status.to_u8() << 1) | r.state.to_u8());
            out.push(0u8);
        },
        SpecificAppearance::SurfacePlatform(r) => {
            out.push((r.frozen_status.to_u8() << 2) | (r.power_plant_status.to_u8() << 1)
                | r.state.to_u8());
            out.push(0u8);
        },
        SpecificAppearance::SubsurfacePlatform(r) => {
            out.push((r.frozen_status.to_u8() << 2) | (r.power_plant_status.to_u8() << 1)
                | r.state.to_u8());
            out.push(0u8);
        },
        SpecificAppearance::SpacePlatform(r) => {
            out.push((r.frozen_status.to_u8() << 2) | (r.power_plant_status.to_u8() << 1)
                | r.state.to_u8());
            out.push(0u8);
        },
        SpecificAppearance::GuidedMunition(r) => {
            out.push((r.launch_flash.to_u8() << 7) | (r.frozen_status.to_u8() << 2)
                | r.state.to_u8());
            out.push(0u8);
        },
        SpecificAppearance::LifeForm(r) => {
            out.push((r.life_form_state.to_u8() << 4) | (r.frozen_status.to_u8() << 2)
                | r.activity_state.to_u8());
            out.push((r.weapon_1.to_u8() << 6) | (r.weapon_2.to_u8() << 4));
        },
        SpecificAppearance::Environmental(r) => {
            out.push(r.density.to_u8() << 4);
            out.push(0u8);
        },
        SpecificAppearance::Other(b0, b1) => {
            out.push(*b0);
            out.push(*b1);
        },
    }
    assert(final(out)@ =~= old(out)@ + enc_appearance(*a));
}

} // verus!
