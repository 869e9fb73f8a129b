//! Builder-style constructors for the appearance records. Every builder keeps
//! each field optional, `validate` tells whether all required fields have been
//! set, and `build` succeeds exactly then.

use vstd::prelude::*;
use crate::appearance::{
    AirPlatformsRecord, EnvironmentalsRecord, GeneralAppearance, GuidedMunitionsRecord,
    LandPlatformsRecord, LifeFormsRecord, SpacePlatformsRecord, SpecificAppearance,
    SubsurfacePlatformsRecord, SurfacePlatformRecord,
};
use crate::enumerations::{
    ActivityState, Afterburner, Camouflage, Concealed, Density, EntityDamage, EntityFirePower,
    EntityFlamingEffect, EntityHatchState, EntityLights, EntityMobilityKill, EntityPaintScheme,
    EntitySmoke, EntityTrailingEffect, FrozenStatus, Launcher, LaunchFlash, LifeFormsState,
    PowerPlantStatus, Ramp, State, Tent, Weapon,
};

verus! {

#[derive(Clone, Copy, Debug, PartialEq, Eq, Structural)]
pub struct GeneralAppearanceBuilder {
    pub entity_paint_scheme: Option<EntityPaintScheme>,
    pub entity_mobility_kill: Option<EntityMobilityKill>,
    pub entity_fire_power: Option<EntityFirePower>,
    pub entity_damage: Option<EntityDamage>,
    pub entity_smoke: Option<EntitySmoke>,
    pub entity_trailing_effect: Option<EntityTrailingEffect>,
    pub entity_hatch_state: Option<EntityHatchState>,
    pub entity_lights: Option<EntityLights>,
    pub entity_flaming_effect: Option<EntityFlamingEffect>,
}

impl GeneralAppearanceBuilder {
    pub fn new() -> (r: Self)
        ensures
            r.entity_paint_scheme is None,
            r.entity_mobility_kill is None,
            r.entity_fire_power is None,
            r.entity_damage is None,
            r.entity_smoke is None,
            r.entity_trailing_effect is None,
            r.entity_hatch_state is None,
            r.entity_lights is None,
            r.entity_flaming_effect is None,
    {
        GeneralAppearanceBuilder {
            entity_paint_scheme: None,
            entity_mobility_kill: None,
            entity_fire_power: None,
            entity_damage: None,
            entity_smoke: None,
            entity_trailing_effect: None,
            entity_hatch_state: None,
            entity_lights: None,
            entity_flaming_effect: None,
        }
    }

    pub fn entity_paint_scheme(self, entity_paint_scheme: EntityPaintScheme) -> (r: Self)
        ensures
            r == (Self { entity_paint_scheme: Some(entity_paint_scheme), ..self }),
    {
        Self { entity_paint_scheme: Some(entity_paint_scheme), ..self }
    }

    pub fn entity_mobility_kill(self, entity_mobility_kill: EntityMobilityKill) -> (r: Self)
        ensures
            r == (Self { entity_mobility_kill: Some(entity_mobility_kill), ..self }),
    {
        Self { entity_mobility_kill: Some(entity_mobility_kill), ..self }
    }

    pub fn entity_fire_power(self, entity_fire_power: EntityFirePower) -> (r: Self)
        ensures
            r == (Self { entity_fire_power: Some(entity_fire_power), ..self }),
    {
        Self { entity_fire_power: Some(entity_fire_power), ..self }
    }

    pub fn entity_damage(self, entity_damage: EntityDamage) -> (r: Self)
        ensures
            r == (Self { entity_damage: Some(entity_damage), ..self }),
    {
        Self { entity_damage: Some(entity_damage), ..self }
    }

    pub fn entity_smoke(self, entity_smoke: EntitySmoke) -> (r: Self)
        ensures
            r == (Self { entity_smoke: Some(entity_smoke), ..self }),
    {
        Self { entity_smoke: Some(entity_smoke), ..self }
    }

    pub fn entity_trailing_effect(self, entity_trailing_effect: EntityTrailingEffect) -> (r: Self)
        ensures
            r == (Self { entity_trailing_effect: Some(entity_trailing_effect), ..self }),
    {
        Self { entity_trailing_effect: Some(entity_trailing_effect), ..self }
    }

    pub fn entity_hatch_state(self, entity_hatch_state: EntityHatchState) -> (r: Self)
        ensures
            r == (Self { entity_hatch_state: Some(entity_hatch_state), ..self }),
    {
        Self { entity_hatch_state: Some(entity_hatch_state), ..self }
    }

    pub fn entity_lights(self, entity_lights: EntityLights) -> (r: Self)
        ensures
            r == (Self { entity_lights: Some(entity_lights), ..self }),
    {
        Self { entity_lights: Some(entity_lights), ..self }
    }

    pub fn entity_flaming_effect(self, entity_flaming_effect: EntityFlamingEffect) -> (r: Self)
        ensures
            r == (Self { entity_flaming_effect: Some(entity_flaming_effect), ..self }),
    {
        Self { entity_flaming_effect: Some(entity_flaming_effect), ..self }
    }

    /// True exactly when every required field has been set.
    pub fn validate(&self) -> (r: bool)
        ensures
            r == (self.entity_paint_scheme is Some && self.entity_mobility_kill is Some && self.entity_fire_power is Some && self.entity_damage is Some && self.entity_smoke is Some && self.entity_trailing_effect is Some && self.entity_hatch_state is Some && self.entity_lights is Some && self.entity_flaming_effect is Some),
    {
        self.entity_paint_scheme.is_some() && self.entity_mobility_kill.is_some() && self.entity_fire_power.is_some() && self.entity_damage.is_some() && self.entity_smoke.is_some() && self.entity_trailing_effect.is_some() && self.entity_hatch_state.is_some() && self.entity_lights.is_some() && self.entity_flaming_effect.is_some()
    }

    /// Builds the record; every required field must have been set, and the
    /// result carries exactly the fields given.
    pub fn build(&self) -> (r: Result<GeneralAppearance, ()>)
        ensures
            r is Ok <==> self.entity_paint_scheme is Some && self.entity_mobility_kill is Some && self.entity_fire_power is Some && self.entity_damage is Some && self.entity_smoke is Some && self.entity_trailing_effect is Some && self.entity_hatch_state is Some && self.entity_lights is Some && self.entity_flaming_effect is Some,
            r matches Ok(v) ==> v == (GeneralAppearance {
            entity_paint_scheme: self.entity_paint_scheme->0,
            entity_mobility_kill: self.entity_mobility_kill->0,
            entity_fire_power: self.entity_fire_power->0,
            entity_damage: self.entity_damage->0,
            entity_smoke: self.entity_smoke->0,
            entity_trailing_effect: self.entity_trailing_effect->0,
            entity_hatch_state: self.entity_hatch_state->0,
            entity_lights: self.entity_lights->0,
            entity_flaming_effect: self.entity_flaming_effect->0,
        }),
    {
        let entity_paint_scheme = match self.entity_paint_scheme {
            Some(x) => x,
            None => {
                return Err(());
            },
        };
        let entity_mobility_kill = match self.entity_mobility_kill {
            Some(x) => x,
            None => {
                return Err(());
            },
        };
        let entity_fire_power = match self.entity_fire_power {
            Some(x) => x,
            None => {
                return Err(());
            },
        };
        let entity_damage = match self.entity_damage {
            Some(x) => x,
            None => {
                return Err(());
            },
        };
        let entity_smoke = match self.entity_smoke {
            Some(x) => x,
            None => {
                return Err(());
            },
        };
        let entity_trailing_effect = match self.entity_trailing_effect {
            Some(x) => x,
            None => {
                return Err(());
            },
        };
        let entity_hatch_state = match self.entity_hatch_state {
            Some(x) => x,
            None => {
                return Err(());
            },
        };
        let entity_lights = match self.entity_lights {
            Some(x) => x,
            None => {
                return Err(());
            },
        };
        let entity_flaming_effect = match self.entity_flaming_effect {
            Some(x) => x,
            None => {
                return Err(());
            },
        };
        Ok(GeneralAppearance {
            entity_paint_scheme,
            entity_mobility_kill,
            entity_fire_power,
            entity_damage,
            entity_smoke,
            entity_trailing_effect,
            entity_hatch_state,
            entity_lights,
            entity_flaming_effect,
        })
    }
}

#[derive(Clone, Copy, Debug, PartialEq, Eq, Structural)]
pub struct LandPlatformBuilder {
    pub launcher: Option<Launcher>,
    pub camouflage_type: Option<Camouflage>,
    pub concealed: Option<Concealed>,
    pub frozen_status: Option<FrozenStatus>,
    pub power_plant_status: Option<PowerPlantStatus>,
    pub state: Option<State>,
    pub tent: Option<Tent>,
    pub ramp: Option<Ramp>,
}

impl LandPlatformBuilder {
    pub fn new() -> (r: Self)
        ensures
            r.launcher is None,
            r.camouflage_type is None,
            r.concealed is None,
            r.frozen_status is None,
            r.power_plant_status is None,
            r.state is None,
            r.tent is None,
            r.ramp is None,
    {
        LandPlatformBuilder {
            launcher: None,
            camouflage_type: None,
            concealed: None,
            frozen_status: None,
            power_plant_status: None,
            state: None,
            tent: None,
            ramp: None,
        }
    }

    pub fn launcher(self, launcher: Launcher) -> (r: Self)
        ensures
            r == (Self { launcher: Some(launcher), ..self }),
    {
        Self { launcher: Some(launcher), ..self }
    }

    pub fn camouflage_type(self, camouflage_type: Camouflage) -> (r: Self)
        ensures
            r == (Self { camouflage_type: Some(camouflage_type), ..self }),
    {
        Self { camouflage_type: Some(camouflage_type), ..self }
    }

    pub fn concealed(self, concealed: Concealed) -> (r: Self)
        ensures
            r == (Self { concealed: Some(concealed), ..self }),
    {
        Self { concealed: Some(concealed), ..self }
    }

    pub fn frozen_status(self, frozen_status: FrozenStatus) -> (r: Self)
        ensures
            r == (Self { frozen_status: Some(frozen_status), ..self }),
    {
        Self { frozen_status: Some(frozen_status), ..self }
    }

    pub fn power_plant_status(self, power_plant_status: PowerPlantStatus) -> (r: Self)
        ensures
            r == (Self { power_plant_status: Some(power_plant_status), ..self }),
    {
        Self { power_plant_status: Some(power_plant_status), ..self }
    }

    pub fn state(self, state: State) -> (r: Self)
        ensures
            r == (Self { state: Some(state), ..self }),
    {
        Self { state: Some(state), ..self }
    }

    pub fn tent(self, tent: Tent) -> (r: Self)
        ensures
            r == (Self { tent: Some(tent), ..self }),
    {
        Self { tent: Some(tent), ..self }
    }

    pub fn ramp(self, ramp: Ramp) -> (r: Self)
        ensures
            r == (Self { ramp: Some(ramp), ..self }),
    {
        Self { ramp: Some(ramp), ..self }
    }

    /// True exactly when every required field has been set.
    pub fn validate(&self) -> (r: bool)
        ensures
            r == (self.launcher is Some && self.camouflage_type is Some && self.concealed is Some && self.frozen_status is Some && self.power_plant_status is Some && self.state is Some && self.tent is Some && self.ramp is Some),
    {
        self.launcher.is_some() && self.camouflage_type.is_some() && self.concealed.is_some() && self.frozen_status.is_some() && self.power_plant_status.is_some() && self.state.is_some() && self.tent.is_some() && self.ramp.is_some()
    }

    /// Builds the record; every required field must have been set, and the
    /// result carries exactly the fields given.
    pub fn build(self) -> (r: Result<SpecificAppearance, ()>)
        ensures
            r is Ok <==> self.launcher is Some && self.camouflage_type is Some && self.concealed is Some && self.frozen_status is Some && self.power_plant_status is Some && self.state is Some && self.tent is Some && self.ramp is Some,
            r matches Ok(v) ==> v == (SpecificAppearance::LandPlatform(
            LandPlatformsRecord {
                launcher: self.launcher->0,
                camouflage_type: self.camouflage_type->0,
                concealed: self.concealed->0,
                frozen_status: self.frozen_status->0,
                power_plant_status: self.power_plant_status->0,
                state: self.state->0,
                tent: self.tent->0,
                ramp: self.ramp->0,
            },
        )),
    {
        let launcher = match self.launcher {
            Some(x) => x,
            None => {
                return Err(());
            },
        };
        let camouflage_type = match self.camouflage_type {
            Some(x) => x,
            None => {
                return Err(());
            },
        };
        let concealed = match self.concealed {
            Some(x) => x,
            None => {
                return Err(());
            },
        };
        let frozen_status = match self.frozen_status {
            Some(x) => x,
            None => {
                return Err(());
            },
        };
        let power_plant_status = match self.power_plant_status {
            Some(x) => x,
            None => {
                return Err(());
            },
        };
        let state = match self.state {
            Some(x) => x,
            None => {
                return Err(());
            },
        };
        let tent = match self.tent {
            Some(x) => x,
            None => {
                return Err(());
            },
        };
        let ramp = match self.ramp {
            Some(x) => x,
            None => {
                return Err(());
            },
        };
        Ok(SpecificAppearance::LandPlatform(LandPlatformsRecord {
            launcher,
            camouflage_type,
            concealed,
            frozen_status,
            power_plant_status,
            state,
            tent,
            ramp,
        }))
    }
}

#[derive(Clone, Copy, Debug, PartialEq, Eq, Structural)]
pub struct AirPlatformBuilder {
    pub afterburner: Option<Afterburner>,
    pub frozen_status: Option<FrozenStatus>,
    pub power_plant_status: Option<PowerPlantStatus>,
    pub state: Option<State>,
}

impl AirPlatformBuilder {
    pub fn new() -> (r: Self)
        ensures
            r.afterburner is None,
            r.frozen_status is None,
            r.power_plant_status is None,
            r.state is None,
    {
        AirPlatformBuilder {
            afterburner: None,
            frozen_status: None,
            power_plant_status: None,
            state: None,
        }
    }

    pub fn afterburner(self, afterburner: Afterburner) -> (r: Self)
        ensures
            r == (Self { afterburner: Some(afterburner), ..self }),
    {
        Self { afterburner: Some(afterburner), ..self }
    }

    pub fn frozen_status(self, frozen_status: FrozenStatus) -> (r: Self)
        ensures
            r == (Self { frozen_status: Some(frozen_status), ..self }),
    {
        Self { frozen_status: Some(frozen_status), ..self }
    }

    pub fn power_plant_status(self, power_plant_status: PowerPlantStatus) -> (r: Self)
        ensures
            r == (Self { power_plant_status: Some(power_plant_status), ..self }),
    {
        Self { power_plant_status: Some(power_plant_status), ..self }
    }

    pub fn state(self, state: State) -> (r: Self)
        ensures
            r == (Self { state: Some(state), ..self }),
    {
        Self { state: Some(state), ..self }
    }

    /// True exactly when every required field has been set.
    pub fn validate(&self) -> (r: bool)
        ensures
            r == (self.afterburner is Some && self.frozen_status is Some && self.power_plant_status is Some && self.state is Some),
    {
        self.afterburner.is_some() && self.frozen_status.is_some() && self.power_plant_status.is_some() && self.state.is_some()
    }

    /// Builds the record; every required field must have been set, and the
    /// result carries exactly the fields given.
    pub fn build(self) -> (r: Result<SpecificAppearance, ()>)
        ensures
            r is Ok <==> self.afterburner is Some && self.frozen_status is Some && self.power_plant_status is Some && self.state is Some,
            r matches Ok(v) ==> v == (SpecificAppearance::AirPlatform(
            AirPlatformsRecord {
                afterburner: self.afterburner->0,
                frozen_status: self.frozen_status->0,
                power_plant_status: self.power_plant_status->0,
                state: self.state->0,
            },
        )),
    {
        let afterburner = match self.afterburner {
            Some(x) => x,
            None => {
                return Err(());
            },
        };
        let frozen_status = match self.frozen_status {
            Some(x) => x,
            None => {
                return Err(());
            },
        };
        let power_plant_status = match self.power_plant_status {
            Some(x) => x,
            None => {
                return Err(());
            },
        };
        let state = match self.state {
            Some(x) => x,
            None => {
                return Err(());
            },
        };
        Ok(SpecificAppearance::AirPlatform(AirPlatformsRecord {
            afterburner,
            frozen_status,
            power_plant_status,
            state,
        }))
    }
}

#[derive(Clone, Copy, Debug, PartialEq, Eq, Structural)]
pub struct SurfacePlatformBuilder {
    pub frozen_status: Option<FrozenStatus>,
    pub power_plant_status: Option<PowerPlantStatus>,
    pub state: Option<State>,
}

impl SurfacePlatformBuilder {
    pub fn new() -> (r: Self)
        ensures
            r.frozen_status is None,
            r.power_plant_status is None,
            r.state is None,
    {
        SurfacePlatformBuilder {
            frozen_status: None,
            power_plant_status: None,
            state: None,
        }
    }

    pub fn frozen_status(self, frozen_status: FrozenStatus) -> (r: Self)
        ensures
            r == (Self { frozen_status: Some(frozen_status), ..self }),
    {
        Self { frozen_status: Some(frozen_status), ..self }
    }

    pub fn power_plant_status(self, power_plant_status: PowerPlantStatus) -> (r: Self)
        ensures
            r == (Self { power_plant_status: Some(power_plant_status), ..self }),
    {
        Self { power_plant_status: Some(power_plant_status), ..self }
    }

    pub fn state(self, state: State) -> (r: Self)
        ensures
            r == (Self { state: Some(state), ..self }),
    {
        Self { state: Some(state), ..self }
    }

    /// True exactly when every required field has been set.
    pub fn validate(&self) -> (r: bool)
        ensures
            r == (self.frozen_status is Some && self.power_plant_status is Some && self.state is Some),
    {
        self.frozen_status.is_some() && self.power_plant_status.is_some() && self.state.is_some()
    }

    /// Builds the record; every required field must have been set, and the
    /// result carries exactly the fields given.
    pub fn build(self) -> (r: Result<SpecificAppearance, ()>)
        ensures
            r is Ok <==> self.frozen_status is Some && self.power_plant_status is Some && self.state is Some,
            r matches Ok(v) ==> v == (SpecificAppearance::SurfacePlatform(
            SurfacePlatformRecord {
                frozen_status: self.frozen_status->0,
                power_plant_status: self.power_plant_status->0,
                state: self.state->0,
            },
        )),
    {
        let frozen_status = match self.frozen_status {
            Some(x) => x,
            None => {
                return Err(());
            },
        };
        let power_plant_status = match self.power_plant_status {
            Some(x) => x,
            None => {
                return Err(());
            },
        };
        let state = match self.state {
            Some(x) => x,
            None => {
                return Err(());
            },
        };
        Ok(SpecificAppearance::SurfacePlatform(SurfacePlatformRecord {
            frozen_status,
            power_plant_status,
            state,
        }))
    }
}

#[derive(Clone, Copy, Debug, PartialEq, Eq, Structural)]
pub struct SubsurfacePlatformBuilder {
    pub frozen_status: Option<FrozenStatus>,
    pub power_plant_status: Option<PowerPlantStatus>,
    pub state: Option<State>,
}

impl SubsurfacePlatformBuilder {
    pub fn new() -> (r: Self)
        ensures
            r.frozen_status is None,
            r.power_plant_status is None,
            r.state is None,
    {
        SubsurfacePlatformBuilder {
            frozen_status: None,
            power_plant_status: None,
            state: None,
        }
    }

    pub fn frozen_status(self, frozen_status: FrozenStatus) -> (r: Self)
        ensures
            r == (Self { frozen_status: Some(frozen_status), ..self }),
    {
        Self { frozen_status: Some(frozen_status), ..self }
    }

    pub fn power_plant_status(self, power_plant_status: PowerPlantStatus) -> (r: Self)
        ensures
            r == (Self { power_plant_status: Some(power_plant_status), ..self }),
    {
        Self { power_plant_status: Some(power_plant_status), ..self }
    }

    pub fn state(self, state: State) -> (r: Self)
        ensures
            r == (Self { state: Some(state), ..self }),
    {
        Self { state: Some(state), ..self }
    }

    /// True exactly when every required field has been set.
    pub fn validate(&self) -> (r: bool)
        ensures
            r == (self.frozen_status is Some && self.power_plant_status is Some && self.state is Some),
    {
        self.frozen_status.is_some() && self.power_plant_status.is_some() && self.state.is_some()
    }

    /// Builds the record; every required field must have been set, and the
    /// result carries exactly the fields given.
    pub fn build(self) -> (r: Result<SpecificAppearance, ()>)
        ensures
            r is Ok <==> self.frozen_status is Some && self.power_plant_status is Some && self.state is Some,
            r matches Ok(v) ==> v == (SpecificAppearance::SubsurfacePlatform(
            SubsurfacePlatformsRecord {
                frozen_status: self.frozen_status->0,
                power_plant_status: self.power_plant_status->0,
                state: self.state->0,
            },
        )),
    {
        let frozen_status = match self.frozen_status {
            Some(x) => x,
            None => {
                return Err(());
            },
        };
        let power_plant_status = match self.power_plant_status {
            Some(x) => x,
            None => {
                return Err(());
            },
        };
        let state = match self.state {
            Some(x) => x,
            None => {
                return Err(());
            },
        };
        Ok(SpecificAppearance::SubsurfacePlatform(SubsurfacePlatformsRecord {
            frozen_status,
            power_plant_status,
            state,
        }))
    }
}

#[derive(Clone, Copy, Debug, PartialEq, Eq, Structural)]
pub struct SpacePlatformBuilder {
    pub frozen_status: Option<FrozenStatus>,
    pub power_plant_status: Option<PowerPlantStatus>,
    pub state: Option<State>,
}

impl SpacePlatformBuilder {
    pub fn new() -> (r: Self)
        ensures
            r.frozen_status is None,
            r.power_plant_status is None,
            r.state is None,
    {
        SpacePlatformBuilder {
            frozen_status: None,
            power_plant_status: None,
            state: None,
        }
    }

    pub fn frozen_status(self, frozen_status: FrozenStatus) -> (r: Self)
        ensures
            r == (Self { frozen_status: Some(frozen_status), ..self }),
    {
        Self { frozen_status: Some(frozen_status), ..self }
    }

    pub fn power_plant_status(self, power_plant_status: PowerPlantStatus) -> (r: Self)
        ensures
            r == (Self { power_plant_status: Some(power_plant_status), ..self }),
    {
        Self { power_plant_status: Some(power_plant_status), ..self }
    }

    pub fn state(self, state: State) -> (r: Self)
        ensures
            r == (Self { state: Some(state), ..self }),
    {
        Self { state: Some(state), ..self }
    }

    /// True exactly when every required field has been set.
    pub fn validate(&self) -> (r: bool)
        ensures
            r == (self.frozen_status is Some && self.power_plant_status is Some && self.state is Some),
    {
        self.frozen_status.is_some() && self.power_plant_status.is_some() && self.state.is_some()
    }

    /// Builds the record; every required field must have been set, and the
    /// result carries exactly the fields given.
    pub fn build(self) -> (r: Result<SpecificAppearance, ()>)
        ensures
            r is Ok <==> self.frozen_status is Some && self.power_plant_status is Some && self.state is Some,
            r matches Ok(v) ==> v == (SpecificAppearance::SpacePlatform(
            SpacePlatformsRecord {
                frozen_status: self.frozen_status->0,
                power_plant_status: self.power_plant_status->0,
                state: self.state->0,
            },
        )),
    {
        let frozen_status = match self.frozen_status {
            Some(x) => x,
            None => {
                return Err(());
            },
        };
        let power_plant_status = match self.power_plant_status {
            Some(x) => x,
            None => {
                return Err(());
            },
        };
        let state = match self.state {
            Some(x) => x,
            None => {
                return Err(());
            },
        };
        Ok(SpecificAppearance::SpacePlatform(SpacePlatformsRecord {
            frozen_status,
            power_plant_status,
            state,
        }))
    }
}

#[derive(Clone, Copy, Debug, PartialEq, Eq, Structural)]
pub struct GuidedMunitionBuilder {
    pub launch_flash: Option<LaunchFlash>,
    pub frozen_status: Option<FrozenStatus>,
    pub state: Option<State>,
}

impl GuidedMunitionBuilder {
    pub fn new() -> (r: Self)
        ensures
            r.launch_flash is None,
            r.frozen_status is None,
            r.state is None,
    {
        GuidedMunitionBuilder {
            launch_flash: None,
            frozen_status: None,
            state: None,
        }
    }

    pub fn launch_flash(self, launch_flash: LaunchFlash) -> (r: Self)
        ensures
            r == (Self { launch_flash: Some(launch_flash), ..self }),
    {
        Self { launch_flash: Some(launch_flash), ..self }
    }

    pub fn frozen_status(self, frozen_status: FrozenStatus) -> (r: Self)
        ensures
            r == (Self { frozen_status: Some(frozen_status), ..self }),
    {
        Self { frozen_status: Some(frozen_status), ..self }
    }

    pub fn state(self, state: State) -> (r: Self)
        ensures
            r == (Self { state: Some(state), ..self }),
    {
        Self { state: Some(state), ..self }
    }

    /// True exactly when every required field has been set.
    pub fn validate(&self) -> (r: bool)
        ensures
            r == (self.launch_flash is Some && self.frozen_status is Some && self.state is Some),
    {
        self.launch_flash.is_some() && self.frozen_status.is_some() && self.state.is_some()
    }

    /// Builds the record; every required field must have been set, and the
    /// result carries exactly the fields given.
    pub fn build(self) -> (r: Result<SpecificAppearance, ()>)
        ensures
            r is Ok <==> self.launch_flash is Some && self.frozen_status is Some && self.state is Some,
            r matches Ok(v) ==> v == (SpecificAppearance::GuidedMunition(
            GuidedMunitionsRecord {
                launch_flash: self.launch_flash->0,
                frozen_status: self.frozen_status->0,
                state: self.state->0,
            },
        )),
    {
        let launch_flash = match self.launch_flash {
            Some(x) => x,
            None => {
                return Err(());
            },
        };
        let frozen_status = match self.frozen_status {
            Some(x) => x,
            None => {
                return Err(());
            },
        };
        let state = match self.state {
            Some(x) => x,
            None => {
                return Err(());
            },
        };
        Ok(SpecificAppearance::GuidedMunition(GuidedMunitionsRecord {
            launch_flash,
            frozen_status,
            state,
        }))
    }
}

#[derive(Clone, Copy, Debug, PartialEq, Eq, Structural)]
pub struct LifeFormBuilder {
    pub life_form_state: Option<LifeFormsState>,
    pub frozen_status: Option<FrozenStatus>,
    pub activity_state: Option<ActivityState>,
    pub weapon_1: Option<Weapon>,
    pub weapon_2: Option<Weapon>,
}

impl LifeFormBuilder {
    pub fn new() -> (r: Self)
        ensures
            r.life_form_state is None,
            r.frozen_status is None,
            r.activity_state is None,
            r.weapon_1 is None,
            r.weapon_2 is None,
    {
        LifeFormBuilder {
            life_form_state: None,
            frozen_status: None,
            activity_state: None,
            weapon_1: None,
            weapon_2: None,
        }
    }

    pub fn life_form_state(self, life_form_state: LifeFormsState) -> (r: Self)
        ensures
            r == (Self { life_form_state: Some(life_form_state), ..self }),
    {
        Self { life_form_state: Some(life_form_state), ..self }
    }

    pub fn frozen_status(self, frozen_status: FrozenStatus) -> (r: Self)
        ensures
            r == (Self { frozen_status: Some(frozen_status), ..self }),
    {
        Self { frozen_status: Some(frozen_status), ..self }
    }

    pub fn activity_state(self, activity_state: ActivityState) -> (r: Self)
        ensures
            r == (Self { activity_state: Some(activity_state), ..self }),
    {
        Self { activity_state: Some(activity_state), ..self }
    }

    pub fn weapon_1(self, weapon_1: Weapon) -> (r: Self)
        ensures
            r == (Self { weapon_1: Some(weapon_1), ..self }),
    {
        Self { weapon_1: Some(weapon_1), ..self }
    }

    pub fn weapon_2(self, weapon_2: Weapon) -> (r: Self)
        ensures
            r == (Self { weapon_2: Some(weapon_2), ..self }),
    {
        Self { weapon_2: Some(weapon_2), ..self }
    }

    /// True exactly when every required field has been set.
    pub fn validate(&self) -> (r: bool)
        ensures
            r == (self.life_form_state is Some && self.frozen_status is Some && self.activity_state is Some && self.weapon_1 is Some && self.weapon_2 is Some),
    {
        self.life_form_state.is_some() && self.frozen_status.is_some() && self.activity_state.is_some() && self.weapon_1.is_some() && self.weapon_2.is_some()
    }

    /// Builds the record; every required field must have been set, and the
    /// result carries exactly the fields given.
    pub fn build(self) -> (r: Result<SpecificAppearance, ()>)
        ensures
            r is Ok <==> self.life_form_state is Some && self.frozen_status is Some && self.activity_state is Some && self.weapon_1 is Some && self.weapon_2 is Some,
            r matches Ok(v) ==> v == (SpecificAppearance::LifeForm(
            LifeFormsRecord {
                life_form_state: self.life_form_state->0,
                frozen_status: self.frozen_status->0,
                activity_state: self.activity_state->0,
                weapon_1: self.weapon_1->0,
                weapon_2: self.weapon_2->0,
            },
        )),
    {
        let life_form_state = match self.life_form_state {
            Some(x) => x,
            None => {
                return Err(());
            },
        };
        let frozen_status = match self.frozen_status {
            Some(x) => x,
            None => {
                return Err(());
            },
        };
        let activity_state = match self.activity_state {
            Some(x) => x,
            None => {
                return Err(());
            },
        };
        let weapon_1 = match self.weapon_1 {
            Some(x) => x,
            None => {
                return Err(());
            },
        };
        let weapon_2 = match self.weapon_2 {
            Some(x) => x,
            None => {
                return Err(());
            },
        };
        Ok(SpecificAppearance::LifeForm(LifeFormsRecord {
            life_form_state,
            frozen_status,
            activity_state,
            weapon_1,
            weapon_2,
        }))
    }
}

#[derive(Clone, Copy, Debug, PartialEq, Eq, Structural)]
pub struct EnvironmentalBuilder {
    pub density: Option<Density>,
}

impl EnvironmentalBuilder {
    pub fn new() -> (r: Self)
        ensures
            r.density is None,
    {
        EnvironmentalBuilder {
            density: None,
        }
    }

    pub fn density(self, density: Density) -> (r: Self)
        ensures
            r == (Self { density: Some(density), ..self }),
    {
        Self { density: Some(density), ..self }
    }

    /// True exactly when every required field has been set.
    pub fn validate(&self) -> (r: bool)
        ensures
            r == (self.density is Some),
    {
        self.density.is_some()
    }

    /// Builds the record; every required field must have been set, and the
    /// result carries exactly the fields given.
    pub fn build(self) -> (r: Result<SpecificAppearance, ()>)
        ensures
            r is Ok <==> self.density is Some,
            r matches Ok(v) ==> v == (SpecificAppearance::Environmental(
            EnvironmentalsRecord {
                density: self.density->0,
            },
        )),
    {
        let density = match self.density {
            Some(x) => x,
            None => {
                return Err(());
            },
        };
        Ok(SpecificAppearance::Environmental(EnvironmentalsRecord {
            density,
        }))
    }
}

impl GeneralAppearance {
    /// A fresh builder with no field set.
    pub fn builder() -> (r: GeneralAppearanceBuilder)
        ensures
            r.entity_paint_scheme is None,
            r.entity_mobility_kill is None,
            r.entity_fire_power is None,
            r.entity_damage is None,
            r.entity_smoke is None,
            r.entity_trailing_effect is None,
            r.entity_hatch_state is None,
            r.entity_lights is None,
            r.entity_flaming_effect is None,
    {
        GeneralAppearanceBuilder::new()
    }
}

impl SpecificAppearance {
    /// A fresh builder with no field set.
    pub fn builder_land_platform() -> (r: LandPlatformBuilder)
        ensures
            r.launcher is None,
            r.camouflage_type is None,
            r.concealed is None,
            r.frozen_status is None,
            r.power_plant_status is None,
            r.state is None,
            r.tent is None,
            r.ramp is None,
    {
        LandPlatformBuilder::new()
    }

    /// A fresh builder with no field set.
    pub fn builder_air_platform() -> (r: AirPlatformBuilder)
        ensures
            r.afterburner is None,
            r.frozen_status is None,
            r.power_plant_status is None,
            r.state is None,
    {
        AirPlatformBuilder::new()
    }

    /// A fresh builder with no field set.
    pub fn builder_surface_platform() -> (r: SurfacePlatformBuilder)
        ensures
            r.frozen_status is None,
            r.power_plant_status is None,
            r.state is None,
    {
        SurfacePlatformBuilder::new()
    }

    /// A fresh builder with no field set.
    pub fn builder_subsurface_platform() -> (r: SubsurfacePlatformBuilder)
        ensures
            r.frozen_status is None,
            r.power_plant_status is None,
            r.state is None,
    {
        SubsurfacePlatformBuilder::new()
    }

    /// A fresh builder with no field set.
    pub fn builder_space_platform() -> (r: SpacePlatformBuilder)
        ensures
            r.frozen_status is None,
            r.power_plant_status is None,
            r.state is None,
    {
        SpacePlatformBuilder::new()
    }

    /// A fresh builder with no field set.
    pub fn builder_guided_munition() -> (r: GuidedMunitionBuilder)
        ensures
            r.launch_flash is None,
            r.frozen_status is None,
            r.state is None,
    {
        GuidedMunitionBuilder::new()
    }

    /// A fresh builder with no field set.
    pub fn builder_life_form() -> (r: LifeFormBuilder)
        ensures
            r.life_form_state is None,
            r.frozen_status is None,
            r.activity_state is None,
            r.weapon_1 is None,
            r.weapon_2 is None,
    {
        LifeFormBuilder::new()
    }

    /// A fresh builder with no field set.
    pub fn builder_environmental() -> (r: EnvironmentalBuilder)
        ensures
            r.density is None,
    {
        EnvironmentalBuilder::new()
    }

}

} // verus!
