//! The enumeration catalog: one typed wrapper per SISO code table that the
//! codec reads or writes. Every enumeration carries its named code points plus
//! an open `Unknown(raw)` tail, so that a code absent from the catalog decodes
//! without loss and re-encodes as the same raw value. For each enumeration,
//! `from_raw` is the total decoding of a raw code, `raw` the lossless inverse,
//! and `wf` holds exactly when an `Unknown` value does not shadow a named code.

use vstd::prelude::*;

verus! {

#[derive(Clone, Copy, Debug, PartialEq, Eq, Structural)]
pub enum ProtocolVersion {
    Other,
    V6,
    V7,
    Unknown(u8),
}

impl ProtocolVersion {
    /// The value that the raw code `n` decodes to.
    pub open spec fn from_raw(n: u8) -> ProtocolVersion {
        if n == 0 {
            ProtocolVersion::Other
        } else if n == 6 {
            ProtocolVersion::V6
        } else if n == 7 {
            ProtocolVersion::V7
        } else {
            ProtocolVersion::Unknown(n)
        }
    }

    /// The raw wire code of this value.
    pub open spec fn raw(self) -> u8 {
        match self {
            ProtocolVersion::Other => 0,
            ProtocolVersion::V6 => 6,
            ProtocolVersion::V7 => 7,
            ProtocolVersion::Unknown(n) => n,
        }
    }

    /// Well-formed: decoding this value's own code gives the value back.
    pub open spec fn wf(self) -> bool {
        Self::from_raw(self.raw()) == self
    }

    pub fn from_u8(n: u8) -> (r: ProtocolVersion)
        ensures
            r == Self::from_raw(n),
    {
        match n {
            0 => ProtocolVersion::Other,
            6 => ProtocolVersion::V6,
            7 => ProtocolVersion::V7,
            _ => ProtocolVersion::Unknown(n),
        }
    }

    pub fn to_u8(self) -> (r: u8)
        ensures
            r == self.raw(),
    {
        match self {
            ProtocolVersion::Other => 0,
            ProtocolVersion::V6 => 6,
            ProtocolVersion::V7 => 7,
            ProtocolVersion::Unknown(n) => n,
        }
    }
}

/// Decoding is total and lossless: every raw code re-encodes to itself,
/// decoding always yields a well-formed value, and a well-formed value is
/// recovered from its own code.
pub proof fn lemma_protocol_version_codes(n: u8, e: ProtocolVersion)
    ensures
        ProtocolVersion::from_raw(n).raw() == n,
        ProtocolVersion::from_raw(n).wf(),
        e.wf() ==> ProtocolVersion::from_raw(e.raw()) == e,
{
}

#[derive(Clone, Copy, Debug, PartialEq, Eq, Structural)]
pub enum PduType {
    Other,
    EntityState,
    Fire,
    Detonation,
    Collision,
    ServiceRequest,
    ResupplyOffer,
    ResupplyReceived,
    ResupplyCancel,
    RepairComplete,
    RepairResponse,
    CreateEntity,
    RemoveEntity,
    StartResume,
    StopFreeze,
    Acknowledge,
    ActionRequest,
    ActionResponse,
    DataQuery,
    SetData,
    Data,
    EventReport,
    Comment,
    ElectromagneticEmission,
    Designator,
    Transmitter,
    Signal,
    Receiver,
    IFF,
    Unknown(u8),
}

impl PduType {
    /// The value that the raw code `n` decodes to.
    pub open spec fn from_raw(n: u8) -> PduType {
        if n == 0 {
            PduType::Other
        } else if n == 1 {
            PduType::EntityState
        } else if n == 2 {
            PduType::Fire
        } else if n == 3 {
            PduType::Detonation
        } else if n == 4 {
            PduType::Collision
        } else if n == 5 {
            PduType::ServiceRequest
        } else if n == 6 {
            PduType::ResupplyOffer
        } else if n == 7 {
            PduType::ResupplyReceived
        } else if n == 8 {
            PduType::ResupplyCancel
        } else if n == 9 {
            PduType::RepairComplete
        } else if n == 10 {
            PduType::RepairResponse
        } else if n == 11 {
            PduType::CreateEntity
        } else if n == 12 {
            PduType::RemoveEntity
        } else if n == 13 {
            PduType::StartResume
        } else if n == 14 {
            PduType::StopFreeze
        } else if n == 15 {
            PduType::Acknowledge
        } else if n == 16 {
            PduType::ActionRequest
        } else if n == 17 {
            PduType::ActionResponse
        } else if n == 18 {
            PduType::DataQuery
        } else if n == 19 {
            PduType::SetData
        } else if n == 20 {
            PduType::Data
        } else if n == 21 {
            PduType::EventReport
        } else if n == 22 {
            PduType::Comment
        } else if n == 23 {
            PduType::ElectromagneticEmission
        } else if n == 24 {
            PduType::Designator
        } else if n == 25 {
            PduType::Transmitter
        } else if n == 26 {
            PduType::Signal
        } else if n == 27 {
            PduType::Receiver
        } else if n == 28 {
            PduType::IFF
        } else {
            PduType::Unknown(n)
        }
    }

    /// The raw wire code of this value.
    pub open spec fn raw(self) -> u8 {
        match self {
            PduType::Other => 0,
            PduType::EntityState => 1,
            PduType::Fire => 2,
            PduType::Detonation => 3,
            PduType::Collision => 4,
            PduType::ServiceRequest => 5,
            PduType::ResupplyOffer => 6,
            PduType::ResupplyReceived => 7,
            PduType::ResupplyCancel => 8,
            PduType::RepairComplete => 9,
            PduType::RepairResponse => 10,
            PduType::CreateEntity => 11,
            PduType::RemoveEntity => 12,
            PduType::StartResume => 13,
            PduType::StopFreeze => 14,
            PduType::Acknowledge => 15,
            PduType::ActionRequest => 16,
            PduType::ActionResponse => 17,
            PduType::DataQuery => 18,
            PduType::SetData => 19,
            PduType::Data => 20,
            PduType::EventReport => 21,
            PduType::Comment => 22,
            PduType::ElectromagneticEmission => 23,
            PduType::Designator => 24,
            PduType::Transmitter => 25,
            PduType::Signal => 26,
            PduType::Receiver => 27,
            PduType::IFF => 28,
            PduType::Unknown(n) => n,
        }
    }

    /// Well-formed: decoding this value's own code gives the value back.
    pub open spec fn wf(self) -> bool {
        Self::from_raw(self.raw()) == self
    }

    pub fn from_u8(n: u8) -> (r: PduType)
        ensures
            r == Self::from_raw(n),
    {
        match n {
            0 => PduType::Other,
            1 => PduType::EntityState,
            2 => PduType::Fire,
            3 => PduType::Detonation,
            4 => PduType::Collision,
            5 => PduType::ServiceRequest,
            6 => PduType::ResupplyOffer,
            7 => PduType::ResupplyReceived,
            8 => PduType::ResupplyCancel,
            9 => PduType::RepairComplete,
            10 => PduType::RepairResponse,
            11 => PduType::CreateEntity,
            12 => PduType::RemoveEntity,
            13 => PduType::StartResume,
            14 => PduType::StopFreeze,
            15 => PduType::Acknowledge,
            16 => PduType::ActionRequest,
            17 => PduType::ActionResponse,
            18 => PduType::DataQuery,
            19 => PduType::SetData,
            20 => PduType::Data,
            21 => PduType::EventReport,
            22 => PduType::Comment,
            23 => PduType::ElectromagneticEmission,
            24 => PduType::Designator,
            25 => PduType::Transmitter,
            26 => PduType::Signal,
            27 => PduType::Receiver,
            28 => PduType::IFF,
            _ => PduType::Unknown(n),
        }
    }

    pub fn to_u8(self) -> (r: u8)
        ensures
            r == self.raw(),
    {
        match self {
            PduType::Other => 0,
            PduType::EntityState => 1,
            PduType::Fire => 2,
            PduType::Detonation => 3,
            PduType::Collision => 4,
            PduType::ServiceRequest => 5,
            PduType::ResupplyOffer => 6,
            PduType::ResupplyReceived => 7,
            PduType::ResupplyCancel => 8,
            PduType::RepairComplete => 9,
            PduType::RepairResponse => 10,
            PduType::CreateEntity => 11,
            PduType::RemoveEntity => 12,
            PduType::StartResume => 13,
            PduType::StopFreeze => 14,
            PduType::Acknowledge => 15,
            PduType::ActionRequest => 16,
            PduType::ActionResponse => 17,
            PduType::DataQuery => 18,
            PduType::SetData => 19,
            PduType::Data => 20,
            PduType::EventReport => 21,
            PduType::Comment => 22,
            PduType::ElectromagneticEmission => 23,
            PduType::Designator => 24,
            PduType::Transmitter => 25,
            PduType::Signal => 26,
            PduType::Receiver => 27,
            PduType::IFF => 28,
            PduType::Unknown(n) => n,
        }
    }
}

impl Default for PduType {
    fn default() -> (r: Self)
        ensures
            r == PduType::Other,
    {
        PduType::Other
    }
}

/// Decoding is total and lossless: every raw code re-encodes to itself,
/// decoding always yields a well-formed value, and a well-formed value is
/// recovered from its own code.
pub proof fn lemma_pdu_type_codes(n: u8, e: PduType)
    ensures
        PduType::from_raw(n).raw() == n,
        PduType::from_raw(n).wf(),
        e.wf() ==> PduType::from_raw(e.raw()) == e,
{
}

#[derive(Clone, Copy, Debug, PartialEq, Eq, Structural)]
pub enum ProtocolFamily {
    Other,
    EntityInformation,
    Warfare,
    Logistics,
    RadioCommunications,
    SimulationManagement,
    DistributedEmissionRegeneration,
    Unknown(u8),
}

impl ProtocolFamily {
    /// The value that the raw code `n` decodes to.
    pub open spec fn from_raw(n: u8) -> ProtocolFamily {
        if n == 0 {
            ProtocolFamily::Other
        } else if n == 1 {
            ProtocolFamily::EntityInformation
        } else if n == 2 {
            ProtocolFamily::Warfare
        } else if n == 3 {
            ProtocolFamily::Logistics
        } else if n == 4 {
            ProtocolFamily::RadioCommunications
        } else if n == 5 {
            ProtocolFamily::SimulationManagement
        } else if n == 6 {
            ProtocolFamily::DistributedEmissionRegeneration
        } else {
            ProtocolFamily::Unknown(n)
        }
    }

    /// The raw wire code of this value.
    pub open spec fn raw(self) -> u8 {
        match self {
            ProtocolFamily::Other => 0,
            ProtocolFamily::EntityInformation => 1,
            ProtocolFamily::Warfare => 2,
            ProtocolFamily::Logistics => 3,
            ProtocolFamily::RadioCommunications => 4,
            ProtocolFamily::SimulationManagement => 5,
            ProtocolFamily::DistributedEmissionRegeneration => 6,
            ProtocolFamily::Unknown(n) => n,
        }
    }

    /// Well-formed: decoding this value's own code gives the value back.
    pub open spec fn wf(self) -> bool {
        Self::from_raw(self.raw()) == self
    }

    pub fn from_u8(n: u8) -> (r: ProtocolFamily)
        ensures
            r == Self::from_raw(n),
    {
        match n {
            0 => ProtocolFamily::Other,
            1 => ProtocolFamily::EntityInformation,
            2 => ProtocolFamily::Warfare,
            3 => ProtocolFamily::Logistics,
            4 => ProtocolFamily::RadioCommunications,
            5 => ProtocolFamily::SimulationManagement,
            6 => ProtocolFamily::DistributedEmissionRegeneration,
            _ => ProtocolFamily::Unknown(n),
        }
    }

    pub fn to_u8(self) -> (r: u8)
        ensures
            r == self.raw(),
    {
        match self {
            ProtocolFamily::Other => 0,
            ProtocolFamily::EntityInformation => 1,
            ProtocolFamily::Warfare => 2,
            ProtocolFamily::Logistics => 3,
            ProtocolFamily::RadioCommunications => 4,
            ProtocolFamily::SimulationManagement => 5,
            ProtocolFamily::DistributedEmissionRegeneration => 6,
            ProtocolFamily::Unknown(n) => n,
        }
    }
}

impl Default for ProtocolFamily {
    fn default() -> (r: Self)
        ensures
            r == ProtocolFamily::Other,
    {
        ProtocolFamily::Other
    }
}

/// Decoding is total and lossless: every raw code re-encodes to itself,
/// decoding always yields a well-formed value, and a well-formed value is
/// recovered from its own code.
pub proof fn lemma_protocol_family_codes(n: u8, e: ProtocolFamily)
    ensures
        ProtocolFamily::from_raw(n).raw() == n,
        ProtocolFamily::from_raw(n).wf(),
        e.wf() ==> ProtocolFamily::from_raw(e.raw()) == e,
{
}

#[derive(Clone, Copy, Debug, PartialEq, Eq, Structural)]
pub enum ForceId {
    Other,
    Friendly,
    Opposing,
    Neutral,
    Unknown(u8),
}

impl ForceId {
    /// The value that the raw code `n` decodes to.
    pub open spec fn from_raw(n: u8) -> ForceId {
        if n == 0 {
            ForceId::Other
        } else if n == 1 {
            ForceId::Friendly
        } else if n == 2 {
            ForceId::Opposing
        } else if n == 3 {
            ForceId::Neutral
        } else {
            ForceId::Unknown(n)
        }
    }

    /// The raw wire code of this value.
    pub open spec fn raw(self) -> u8 {
        match self {
            ForceId::Other => 0,
            ForceId::Friendly => 1,
            ForceId::Opposing => 2,
            ForceId::Neutral => 3,
            ForceId::Unknown(n) => n,
        }
    }

    /// Well-formed: decoding this value's own code gives the value back.
    pub open spec fn wf(self) -> bool {
        Self::from_raw(self.raw()) == self
    }

    pub fn from_u8(n: u8) -> (r: ForceId)
        ensures
            r == Self::from_raw(n),
    {
        match n {
            0 => ForceId::Other,
            1 => ForceId::Friendly,
            2 => ForceId::Opposing,
            3 => ForceId::Neutral,
            _ => ForceId::Unknown(n),
        }
    }

    pub fn to_u8(self) -> (r: u8)
        ensures
            r == self.raw(),
    {
        match self {
            ForceId::Other => 0,
            ForceId::Friendly => 1,
            ForceId::Opposing => 2,
            ForceId::Neutral => 3,
            ForceId::Unknown(n) => n,
        }
    }
}

impl Default for ForceId {
    fn default() -> (r: Self)
        ensures
            r == ForceId::Other,
    {
        ForceId::Other
    }
}

/// Decoding is total and lossless: every raw code re-encodes to itself,
/// decoding always yields a well-formed value, and a well-formed value is
/// recovered from its own code.
pub proof fn lemma_force_id_codes(n: u8, e: ForceId)
    ensures
        ForceId::from_raw(n).raw() == n,
        ForceId::from_raw(n).wf(),
        e.wf() ==> ForceId::from_raw(e.raw()) == e,
{
}

#[derive(Clone, Copy, Debug, PartialEq, Eq, Structural)]
pub enum EntityKind {
    Other,
    Platform,
    Munition,
    LifeForm,
    Environmental,
    CulturalFeature,
    Supply,
    Radio,
    Expendable,
    SensorEmitter,
    Unknown(u8),
}

impl EntityKind {
    /// The value that the raw code `n` decodes to.
    pub open spec fn from_raw(n: u8) -> EntityKind {
        if n == 0 {
            EntityKind::Other
        } else if n == 1 {
            EntityKind::Platform
        } else if n == 2 {
            EntityKind::Munition
        } else if n == 3 {
            EntityKind::LifeForm
        } else if n == 4 {
            EntityKind::Environmental
        } else if n == 5 {
            EntityKind::CulturalFeature
        } else if n == 6 {
            EntityKind::Supply
        } else if n == 7 {
            EntityKind::Radio
        } else if n == 8 {
            EntityKind::Expendable
        } else if n == 9 {
            EntityKind::SensorEmitter
        } else {
            EntityKind::Unknown(n)
        }
    }

    /// The raw wire code of this value.
    pub open spec fn raw(self) -> u8 {
        match self {
            EntityKind::Other => 0,
            EntityKind::Platform => 1,
            EntityKind::Munition => 2,
            EntityKind::LifeForm => 3,
            EntityKind::Environmental => 4,
            EntityKind::CulturalFeature => 5,
            EntityKind::Supply => 6,
            EntityKind::Radio => 7,
            EntityKind::Expendable => 8,
            EntityKind::SensorEmitter => 9,
            EntityKind::Unknown(n) => n,
        }
    }

    /// Well-formed: decoding this value's own code gives the value back.
    pub open spec fn wf(self) -> bool {
        Self::from_raw(self.raw()) == self
    }

    pub fn from_u8(n: u8) -> (r: EntityKind)
        ensures
            r == Self::from_raw(n),
    {
        match n {
            0 => EntityKind::Other,
            1 => EntityKind::Platform,
            2 => EntityKind::Munition,
            3 => EntityKind::LifeForm,
            4 => EntityKind::Environmental,
            5 => EntityKind::CulturalFeature,
            6 => EntityKind::Supply,
            7 => EntityKind::Radio,
            8 => EntityKind::Expendable,
            9 => EntityKind::SensorEmitter,
            _ => EntityKind::Unknown(n),
        }
    }

    pub fn to_u8(self) -> (r: u8)
        ensures
            r == self.raw(),
    {
        match self {
            EntityKind::Other => 0,
            EntityKind::Platform => 1,
            EntityKind::Munition => 2,
            EntityKind::LifeForm => 3,
            EntityKind::Environmental => 4,
            EntityKind::CulturalFeature => 5,
            EntityKind::Supply => 6,
            EntityKind::Radio => 7,
            EntityKind::Expendable => 8,
            EntityKind::SensorEmitter => 9,
            EntityKind::Unknown(n) => n,
        }
    }
}

impl Default for EntityKind {
    fn default() -> (r: Self)
        ensures
            r == EntityKind::Other,
    {
        EntityKind::Other
    }
}

/// Decoding is total and lossless: every raw code re-encodes to itself,
/// decoding always yields a well-formed value, and a well-formed value is
/// recovered from its own code.
pub proof fn lemma_entity_kind_codes(n: u8, e: EntityKind)
    ensures
        EntityKind::from_raw(n).raw() == n,
        EntityKind::from_raw(n).wf(),
        e.wf() ==> EntityKind::from_raw(e.raw()) == e,
{
}

#[derive(Clone, Copy, Debug, PartialEq, Eq, Structural)]
pub enum Country {
    Other,
    France,
    Germany,
    Netherlands,
    Russia,
    UnitedKingdom,
    UnitedStates,
    Unknown(u16),
}

impl Country {
    /// The value that the raw code `n` decodes to.
    pub open spec fn from_raw(n: u16) -> Country {
        if n == 0 {
            Country::Other
        } else if n == 71 {
            Country::France
        } else if n == 78 {
            Country::Germany
        } else if n == 153 {
            Country::Netherlands
        } else if n == 222 {
            Country::Russia
        } else if n == 224 {
            Country::UnitedKingdom
        } else if n == 225 {
            Country::UnitedStates
        } else {
            Country::Unknown(n)
        }
    }

    /// The raw wire code of this value.
    pub open spec fn raw(self) -> u16 {
        match self {
            Country::Other => 0,
            Country::France => 71,
            Country::Germany => 78,
            Country::Netherlands => 153,
            Country::Russia => 222,
            Country::UnitedKingdom => 224,
            Country::UnitedStates => 225,
            Country::Unknown(n) => n,
        }
    }

    /// Well-formed: decoding this value's own code gives the value back.
    pub open spec fn wf(self) -> bool {
        Self::from_raw(self.raw()) == self
    }

    pub fn from_u16(n: u16) -> (r: Country)
        ensures
            r == Self::from_raw(n),
    {
        match n {
            0 => Country::Other,
            71 => Country::France,
            78 => Country::Germany,
            153 => Country::Netherlands,
            222 => Country::Russia,
            224 => Country::UnitedKingdom,
            225 => Country::UnitedStates,
            _ => Country::Unknown(n),
        }
    }

    pub fn to_u16(self) -> (r: u16)
        ensures
            r == self.raw(),
    {
        match self {
            Country::Other => 0,
            Country::France => 71,
            Country::Germany => 78,
            Country::Netherlands => 153,
            Country::Russia => 222,
            Country::UnitedKingdom => 224,
            Country::UnitedStates => 225,
            Country::Unknown(n) => n,
        }
    }
}

impl Default for Country {
    fn default() -> (r: Self)
        ensures
            r == Country::Other,
    {
        Country::Other
    }
}

/// Decoding is total and lossless: every raw code re-encodes to itself,
/// decoding always yields a well-formed value, and a well-formed value is
/// recovered from its own code.
pub proof fn lemma_country_codes(n: u16, e: Country)
    ensures
        Country::from_raw(n).raw() == n,
        Country::from_raw(n).wf(),
        e.wf() ==> Country::from_raw(e.raw()) == e,
{
}

#[derive(Clone, Copy, Debug, PartialEq, Eq, Structural)]
pub enum EntityMarkingCharacterSet {
    Unused,
    ASCII,
    ArmyMarking,
    DigitChevron,
    Unknown(u8),
}

impl EntityMarkingCharacterSet {
    /// The value that the raw code `n` decodes to.
    pub open spec fn from_raw(n: u8) -> EntityMarkingCharacterSet {
        if n == 0 {
            EntityMarkingCharacterSet::Unused
        } else if n == 1 {
            EntityMarkingCharacterSet::ASCII
        } else if n == 2 {
            EntityMarkingCharacterSet::ArmyMarking
        } else if n == 3 {
            EntityMarkingCharacterSet::DigitChevron
        } else {
            EntityMarkingCharacterSet::Unknown(n)
        }
    }

    /// The raw wire code of this value.
    pub open spec fn raw(self) -> u8 {
        match self {
            EntityMarkingCharacterSet::Unused => 0,
            EntityMarkingCharacterSet::ASCII => 1,
            EntityMarkingCharacterSet::ArmyMarking => 2,
            EntityMarkingCharacterSet::DigitChevron => 3,
            EntityMarkingCharacterSet::Unknown(n) => n,
        }
    }

    /// Well-formed: decoding this value's own code gives the value back.
    pub open spec fn wf(self) -> bool {
        Self::from_raw(self.raw()) == self
    }

    pub fn from_u8(n: u8) -> (r: EntityMarkingCharacterSet)
        ensures
            r == Self::from_raw(n),
    {
        match n {
            0 => EntityMarkingCharacterSet::Unused,
            1 => EntityMarkingCharacterSet::ASCII,
            2 => EntityMarkingCharacterSet::ArmyMarking,
            3 => EntityMarkingCharacterSet::DigitChevron,
            _ => EntityMarkingCharacterSet::Unknown(n),
        }
    }

    pub fn to_u8(self) -> (r: u8)
        ensures
            r == self.raw(),
    {
        match self {
            EntityMarkingCharacterSet::Unused => 0,
            EntityMarkingCharacterSet::ASCII => 1,
            EntityMarkingCharacterSet::ArmyMarking => 2,
            EntityMarkingCharacterSet::DigitChevron => 3,
            EntityMarkingCharacterSet::Unknown(n) => n,
        }
    }
}

impl Default for EntityMarkingCharacterSet {
    fn default() -> (r: Self)
        ensures
            r == EntityMarkingCharacterSet::ASCII,
    {
        EntityMarkingCharacterSet::ASCII
    }
}

/// Decoding is total and lossless: every raw code re-encodes to itself,
/// decoding always yields a well-formed value, and a well-formed value is
/// recovered from its own code.
pub proof fn lemma_entity_marking_character_set_codes(n: u8, e: EntityMarkingCharacterSet)
    ensures
        EntityMarkingCharacterSet::from_raw(n).raw() == n,
        EntityMarkingCharacterSet::from_raw(n).wf(),
        e.wf() ==> EntityMarkingCharacterSet::from_raw(e.raw()) == e,
{
}

#[derive(Clone, Copy, Debug, PartialEq, Eq, Structural)]
pub enum AcknowledgeFlag {
    CreateEntity,
    RemoveEntity,
    StartResume,
    StopFreeze,
    TransferOwnership,
    Unknown(u16),
}

impl AcknowledgeFlag {
    /// The value that the raw code `n` decodes to.
    pub open spec fn from_raw(n: u16) -> AcknowledgeFlag {
        if n == 1 {
            AcknowledgeFlag::CreateEntity
        } else if n == 2 {
            AcknowledgeFlag::RemoveEntity
        } else if n == 3 {
            AcknowledgeFlag::StartResume
        } else if n == 4 {
            AcknowledgeFlag::StopFreeze
        } else if n == 5 {
            AcknowledgeFlag::TransferOwnership
        } else {
            AcknowledgeFlag::Unknown(n)
        }
    }

    /// The raw wire code of this value.
    pub open spec fn raw(self) -> u16 {
        match self {
            AcknowledgeFlag::CreateEntity => 1,
            AcknowledgeFlag::RemoveEntity => 2,
            AcknowledgeFlag::StartResume => 3,
            AcknowledgeFlag::StopFreeze => 4,
            AcknowledgeFlag::TransferOwnership => 5,
            AcknowledgeFlag::Unknown(n) => n,
        }
    }

    /// Well-formed: decoding this value's own code gives the value back.
    pub open spec fn wf(self) -> bool {
        Self::from_raw(self.raw()) == self
    }

    pub fn from_u16(n: u16) -> (r: AcknowledgeFlag)
        ensures
            r == Self::from_raw(n),
    {
        match n {
            1 => AcknowledgeFlag::CreateEntity,
            2 => AcknowledgeFlag::RemoveEntity,
            3 => AcknowledgeFlag::StartResume,
            4 => AcknowledgeFlag::StopFreeze,
            5 => AcknowledgeFlag::TransferOwnership,
            _ => AcknowledgeFlag::Unknown(n),
        }
    }

    pub fn to_u16(self) -> (r: u16)
        ensures
            r == self.raw(),
    {
        match self {
            AcknowledgeFlag::CreateEntity => 1,
            AcknowledgeFlag::RemoveEntity => 2,
            AcknowledgeFlag::StartResume => 3,
            AcknowledgeFlag::StopFreeze => 4,
            AcknowledgeFlag::TransferOwnership => 5,
            AcknowledgeFlag::Unknown(n) => n,
        }
    }
}

impl Default for AcknowledgeFlag {
    fn default() -> (r: Self)
        ensures
            r == AcknowledgeFlag::CreateEntity,
    {
        AcknowledgeFlag::CreateEntity
    }
}

/// Decoding is total and lossless: every raw code re-encodes to itself,
/// decoding always yields a well-formed value, and a well-formed value is
/// recovered from its own code.
pub proof fn lemma_acknowledge_flag_codes(n: u16, e: AcknowledgeFlag)
    ensures
        AcknowledgeFlag::from_raw(n).raw() == n,
        AcknowledgeFlag::from_raw(n).wf(),
        e.wf() ==> AcknowledgeFlag::from_raw(e.raw()) == e,
{
}

#[derive(Clone, Copy, Debug, PartialEq, Eq, Structural)]
pub enum ResponseFlag {
    Other,
    AbleToComply,
    UnableToComply,
    PendingOperatorAction,
    Unknown(u16),
}

impl ResponseFlag {
    /// The value that the raw code `n` decodes to.
    pub open spec fn from_raw(n: u16) -> ResponseFlag {
        if n == 0 {
            ResponseFlag::Other
        } else if n == 1 {
            ResponseFlag::AbleToComply
        } else if n == 2 {
            ResponseFlag::UnableToComply
        } else if n == 3 {
            ResponseFlag::PendingOperatorAction
        } else {
            ResponseFlag::Unknown(n)
        }
    }

    /// The raw wire code of this value.
    pub open spec fn raw(self) -> u16 {
        match self {
            ResponseFlag::Other => 0,
            ResponseFlag::AbleToComply => 1,
            ResponseFlag::UnableToComply => 2,
            ResponseFlag::PendingOperatorAction => 3,
            ResponseFlag::Unknown(n) => n,
        }
    }

    /// Well-formed: decoding this value's own code gives the value back.
    pub open spec fn wf(self) -> bool {
        Self::from_raw(self.raw()) == self
    }

    pub fn from_u16(n: u16) -> (r: ResponseFlag)
        ensures
            r == Self::from_raw(n),
    {
        match n {
            0 => ResponseFlag::Other,
            1 => ResponseFlag::AbleToComply,
            2 => ResponseFlag::UnableToComply,
            3 => ResponseFlag::PendingOperatorAction,
            _ => ResponseFlag::Unknown(n),
        }
    }

    pub fn to_u16(self) -> (r: u16)
        ensures
            r == self.raw(),
    {
        match self {
            ResponseFlag::Other => 0,
            ResponseFlag::AbleToComply => 1,
            ResponseFlag::UnableToComply => 2,
            ResponseFlag::PendingOperatorAction => 3,
            ResponseFlag::Unknown(n) => n,
        }
    }
}

impl Default for ResponseFlag {
    fn default() -> (r: Self)
        ensures
            r == ResponseFlag::Other,
    {
        ResponseFlag::Other
    }
}

/// Decoding is total and lossless: every raw code re-encodes to itself,
/// decoding always yields a well-formed value, and a well-formed value is
/// recovered from its own code.
pub proof fn lemma_response_flag_codes(n: u16, e: ResponseFlag)
    ensures
        ResponseFlag::from_raw(n).raw() == n,
        ResponseFlag::from_raw(n).wf(),
        e.wf() ==> ResponseFlag::from_raw(e.raw()) == e,
{
}

#[derive(Clone, Copy, Debug, PartialEq, Eq, Structural)]
pub enum ActionId {
    Other,
    LocalStorage,
    OutOfAmmunition,
    KilledInAction,
    Damage,
    MobilityDisabled,
    FireDisabled,
    Unknown(u32),
}

impl ActionId {
    /// The value that the raw code `n` decodes to.
    pub open spec fn from_raw(n: u32) -> ActionId {
        if n == 0 {
            ActionId::Other
        } else if n == 1 {
            ActionId::LocalStorage
        } else if n == 2 {
            ActionId::OutOfAmmunition
        } else if n == 3 {
            ActionId::KilledInAction
        } else if n == 4 {
            ActionId::Damage
        } else if n == 5 {
            ActionId::MobilityDisabled
        } else if n == 6 {
            ActionId::FireDisabled
        } else {
            ActionId::Unknown(n)
        }
    }

    /// The raw wire code of this value.
    pub open spec fn raw(self) -> u32 {
        match self {
            ActionId::Other => 0,
            ActionId::LocalStorage => 1,
            ActionId::OutOfAmmunition => 2,
            ActionId::KilledInAction => 3,
            ActionId::Damage => 4,
            ActionId::MobilityDisabled => 5,
            ActionId::FireDisabled => 6,
            ActionId::Unknown(n) => n,
        }
    }

    /// Well-formed: decoding this value's own code gives the value back.
    pub open spec fn wf(self) -> bool {
        Self::from_raw(self.raw()) == self
    }

    pub fn from_u32(n: u32) -> (r: ActionId)
        ensures
            r == Self::from_raw(n),
    {
        match n {
            0 => ActionId::Other,
            1 => ActionId::LocalStorage,
            2 => ActionId::OutOfAmmunition,
            3 => ActionId::KilledInAction,
            4 => ActionId::Damage,
            5 => ActionId::MobilityDisabled,
            6 => ActionId::FireDisabled,
            _ => ActionId::Unknown(n),
        }
    }

    pub fn to_u32(self) -> (r: u32)
        ensures
            r == self.raw(),
    {
        match self {
            ActionId::Other => 0,
            ActionId::LocalStorage => 1,
            ActionId::OutOfAmmunition => 2,
            ActionId::KilledInAction => 3,
            ActionId::Damage => 4,
            ActionId::MobilityDisabled => 5,
            ActionId::FireDisabled => 6,
            ActionId::Unknown(n) => n,
        }
    }
}

impl Default for ActionId {
    fn default() -> (r: Self)
        ensures
            r == ActionId::Other,
    {
        ActionId::Other
    }
}

/// Decoding is total and lossless: every raw code re-encodes to itself,
/// decoding always yields a well-formed value, and a well-formed value is
/// recovered from its own code.
pub proof fn lemma_action_id_codes(n: u32, e: ActionId)
    ensures
        ActionId::from_raw(n).raw() == n,
        ActionId::from_raw(n).wf(),
        e.wf() ==> ActionId::from_raw(e.raw()) == e,
{
}

#[derive(Clone, Copy, Debug, PartialEq, Eq, Structural)]
pub enum RequestStatus {
    Other,
    Pending,
    Executing,
    PartiallyComplete,
    Complete,
    RequestRejected,
    Unknown(u32),
}

impl RequestStatus {
    /// The value that the raw code `n` decodes to.
    pub open spec fn from_raw(n: u32) -> RequestStatus {
        if n == 0 {
            RequestStatus::Other
        } else if n == 1 {
            RequestStatus::Pending
        } else if n == 2 {
            RequestStatus::Executing
        } else if n == 3 {
            RequestStatus::PartiallyComplete
        } else if n == 4 {
            RequestStatus::Complete
        } else if n == 5 {
            RequestStatus::RequestRejected
        } else {
            RequestStatus::Unknown(n)
        }
    }

    /// The raw wire code of this value.
    pub open spec fn raw(self) -> u32 {
        match self {
            RequestStatus::Other => 0,
            RequestStatus::Pending => 1,
            RequestStatus::Executing => 2,
            RequestStatus::PartiallyComplete => 3,
            RequestStatus::Complete => 4,
            RequestStatus::RequestRejected => 5,
            RequestStatus::Unknown(n) => n,
        }
    }

    /// Well-formed: decoding this value's own code gives the value back.
    pub open spec fn wf(self) -> bool {
        Self::from_raw(self.raw()) == self
    }

    pub fn from_u32(n: u32) -> (r: RequestStatus)
        ensures
            r == Self::from_raw(n),
    {
        match n {
            0 => RequestStatus::Other,
            1 => RequestStatus::Pending,
            2 => RequestStatus::Executing,
            3 => RequestStatus::PartiallyComplete,
            4 => RequestStatus::Complete,
            5 => RequestStatus::RequestRejected,
            _ => RequestStatus::Unknown(n),
        }
    }

    pub fn to_u32(self) -> (r: u32)
        ensures
            r == self.raw(),
    {
        match self {
            RequestStatus::Other => 0,
            RequestStatus::Pending => 1,
            RequestStatus::Executing => 2,
            RequestStatus::PartiallyComplete => 3,
            RequestStatus::Complete => 4,
            RequestStatus::RequestRejected => 5,
            RequestStatus::Unknown(n) => n,
        }
    }
}

impl Default for RequestStatus {
    fn default() -> (r: Self)
        ensures
            r == RequestStatus::Other,
    {
        RequestStatus::Other
    }
}

/// Decoding is total and lossless: every raw code re-encodes to itself,
/// decoding always yields a well-formed value, and a well-formed value is
/// recovered from its own code.
pub proof fn lemma_request_status_codes(n: u32, e: RequestStatus)
    ensures
        RequestStatus::from_raw(n).raw() == n,
        RequestStatus::from_raw(n).wf(),
        e.wf() ==> RequestStatus::from_raw(e.raw()) == e,
{
}

#[derive(Clone, Copy, Debug, PartialEq, Eq, Structural)]
pub enum FireTypeIndicator {
    Munition,
    Expendable,
    Unknown(u8),
}

impl FireTypeIndicator {
    /// The value that the raw code `n` decodes to.
    pub open spec fn from_raw(n: u8) -> FireTypeIndicator {
        if n == 0 {
            FireTypeIndicator::Munition
        } else if n == 1 {
            FireTypeIndicator::Expendable
        } else {
            FireTypeIndicator::Unknown(n)
        }
    }

    /// The raw wire code of this value.
    pub open spec fn raw(self) -> u8 {
        match self {
            FireTypeIndicator::Munition => 0,
            FireTypeIndicator::Expendable => 1,
            FireTypeIndicator::Unknown(n) => n,
        }
    }

    /// Well-formed: decoding this value's own code gives the value back.
    pub open spec fn wf(self) -> bool {
        Self::from_raw(self.raw()) == self
    }

    pub fn from_u8(n: u8) -> (r: FireTypeIndicator)
        ensures
            r == Self::from_raw(n),
    {
        match n {
            0 => FireTypeIndicator::Munition,
            1 => FireTypeIndicator::Expendable,
            _ => FireTypeIndicator::Unknown(n),
        }
    }

    pub fn to_u8(self) -> (r: u8)
        ensures
            r == self.raw(),
    {
        match self {
            FireTypeIndicator::Munition => 0,
            FireTypeIndicator::Expendable => 1,
            FireTypeIndicator::Unknown(n) => n,
        }
    }
}

impl Default for FireTypeIndicator {
    fn default() -> (r: Self)
        ensures
            r == FireTypeIndicator::Munition,
    {
        FireTypeIndicator::Munition
    }
}

/// Decoding is total and lossless: every raw code re-encodes to itself,
/// decoding always yields a well-formed value, and a well-formed value is
/// recovered from its own code.
pub proof fn lemma_fire_type_indicator_codes(n: u8, e: FireTypeIndicator)
    ensures
        FireTypeIndicator::from_raw(n).raw() == n,
        FireTypeIndicator::from_raw(n).wf(),
        e.wf() ==> FireTypeIndicator::from_raw(e.raw()) == e,
{
}

#[derive(Clone, Copy, Debug, PartialEq, Eq, Structural)]
pub enum DetonationTypeIndicator {
    Munition,
    Expendable,
    NonMunitionExplosion,
    Unknown(u8),
}

impl DetonationTypeIndicator {
    /// The value that the raw code `n` decodes to.
    pub open spec fn from_raw(n: u8) -> DetonationTypeIndicator {
        if n == 0 {
            DetonationTypeIndicator::Munition
        } else if n == 1 {
            DetonationTypeIndicator::Expendable
        } else if n == 2 {
            DetonationTypeIndicator::NonMunitionExplosion
        } else {
            DetonationTypeIndicator::Unknown(n)
        }
    }

    /// The raw wire code of this value.
    pub open spec fn raw(self) -> u8 {
        match self {
            DetonationTypeIndicator::Munition => 0,
            DetonationTypeIndicator::Expendable => 1,
            DetonationTypeIndicator::NonMunitionExplosion => 2,
            DetonationTypeIndicator::Unknown(n) => n,
        }
    }

    /// Well-formed: decoding this value's own code gives the value back.
    pub open spec fn wf(self) -> bool {
        Self::from_raw(self.raw()) == self
    }

    pub fn from_u8(n: u8) -> (r: DetonationTypeIndicator)
        ensures
            r == Self::from_raw(n),
    {
        match n {
            0 => DetonationTypeIndicator::Munition,
            1 => DetonationTypeIndicator::Expendable,
            2 => DetonationTypeIndicator::NonMunitionExplosion,
            _ => DetonationTypeIndicator::Unknown(n),
        }
    }

    pub fn to_u8(self) -> (r: u8)
        ensures
            r == self.raw(),
    {
        match self {
            DetonationTypeIndicator::Munition => 0,
            DetonationTypeIndicator::Expendable => 1,
            DetonationTypeIndicator::NonMunitionExplosion => 2,
            DetonationTypeIndicator::Unknown(n) => n,
        }
    }
}

impl Default for DetonationTypeIndicator {
    fn default() -> (r: Self)
        ensures
            r == DetonationTypeIndicator::Munition,
    {
        DetonationTypeIndicator::Munition
    }
}

/// Decoding is total and lossless: every raw code re-encodes to itself,
/// decoding always yields a well-formed value, and a well-formed value is
/// recovered from its own code.
pub proof fn lemma_detonation_type_indicator_codes(n: u8, e: DetonationTypeIndicator)
    ensures
        DetonationTypeIndicator::from_raw(n).raw() == n,
        DetonationTypeIndicator::from_raw(n).wf(),
        e.wf() ==> DetonationTypeIndicator::from_raw(e.raw()) == e,
{
}

#[derive(Clone, Copy, Debug, PartialEq, Eq, Structural)]
pub enum TransferredEntityIndicator {
    NoDifference,
    Difference,
    Unknown(u8),
}

impl TransferredEntityIndicator {
    /// The value that the raw code `n` decodes to.
    pub open spec fn from_raw(n: u8) -> TransferredEntityIndicator {
        if n == 0 {
            TransferredEntityIndicator::NoDifference
        } else if n == 1 {
            TransferredEntityIndicator::Difference
        } else {
            TransferredEntityIndicator::Unknown(n)
        }
    }

    /// The raw wire code of this value.
    pub open spec fn raw(self) -> u8 {
        match self {
            TransferredEntityIndicator::NoDifference => 0,
            TransferredEntityIndicator::Difference => 1,
            TransferredEntityIndicator::Unknown(n) => n,
        }
    }

    /// Well-formed: decoding this value's own code gives the value back.
    pub open spec fn wf(self) -> bool {
        Self::from_raw(self.raw()) == self
    }

    pub fn from_u8(n: u8) -> (r: TransferredEntityIndicator)
        ensures
            r == Self::from_raw(n),
    {
        match n {
            0 => TransferredEntityIndicator::NoDifference,
            1 => TransferredEntityIndicator::Difference,
            _ => TransferredEntityIndicator::Unknown(n),
        }
    }

    pub fn to_u8(self) -> (r: u8)
        ensures
            r == self.raw(),
    {
        match self {
            TransferredEntityIndicator::NoDifference => 0,
            TransferredEntityIndicator::Difference => 1,
            TransferredEntityIndicator::Unknown(n) => n,
        }
    }
}

impl Default for TransferredEntityIndicator {
    fn default() -> (r: Self)
        ensures
            r == TransferredEntityIndicator::NoDifference,
    {
        TransferredEntityIndicator::NoDifference
    }
}

/// Decoding is total and lossless: every raw code re-encodes to itself,
/// decoding always yields a well-formed value, and a well-formed value is
/// recovered from its own code.
pub proof fn lemma_transferred_entity_indicator_codes(n: u8, e: TransferredEntityIndicator)
    ensures
        TransferredEntityIndicator::from_raw(n).raw() == n,
        TransferredEntityIndicator::from_raw(n).wf(),
        e.wf() ==> TransferredEntityIndicator::from_raw(e.raw()) == e,
{
}

#[derive(Clone, Copy, Debug, PartialEq, Eq, Structural)]
pub enum LvcIndicator {
    NoStatement,
    Live,
    Virtual,
    Constructive,
    Unknown(u8),
}

impl LvcIndicator {
    /// The value that the raw code `n` decodes to.
    pub open spec fn from_raw(n: u8) -> LvcIndicator {
        if n == 0 {
            LvcIndicator::NoStatement
        } else if n == 1 {
            LvcIndicator::Live
        } else if n == 2 {
            LvcIndicator::Virtual
        } else if n == 3 {
            LvcIndicator::Constructive
        } else {
            LvcIndicator::Unknown(n)
        }
    }

    /// The raw wire code of this value.
    pub open spec fn raw(self) -> u8 {
        match self {
            LvcIndicator::NoStatement => 0,
            LvcIndicator::Live => 1,
            LvcIndicator::Virtual => 2,
            LvcIndicator::Constructive => 3,
            LvcIndicator::Unknown(n) => n,
        }
    }

    /// Well-formed: decoding this value's own code gives the value back.
    pub open spec fn wf(self) -> bool {
        Self::from_raw(self.raw()) == self
    }

    pub fn from_u8(n: u8) -> (r: LvcIndicator)
        ensures
            r == Self::from_raw(n),
    {
        match n {
            0 => LvcIndicator::NoStatement,
            1 => LvcIndicator::Live,
            2 => LvcIndicator::Virtual,
            3 => LvcIndicator::Constructive,
            _ => LvcIndicator::Unknown(n),
        }
    }

    pub fn to_u8(self) -> (r: u8)
        ensures
            r == self.raw(),
    {
        match self {
            LvcIndicator::NoStatement => 0,
            LvcIndicator::Live => 1,
            LvcIndicator::Virtual => 2,
            LvcIndicator::Constructive => 3,
            LvcIndicator::Unknown(n) => n,
        }
    }
}

impl Default for LvcIndicator {
    fn default() -> (r: Self)
        ensures
            r == LvcIndicator::NoStatement,
    {
        LvcIndicator::NoStatement
    }
}

/// Decoding is total and lossless: every raw code re-encodes to itself,
/// decoding always yields a well-formed value, and a well-formed value is
/// recovered from its own code.
pub proof fn lemma_lvc_indicator_codes(n: u8, e: LvcIndicator)
    ensures
        LvcIndicator::from_raw(n).raw() == n,
        LvcIndicator::from_raw(n).wf(),
        e.wf() ==> LvcIndicator::from_raw(e.raw()) == e,
{
}

#[derive(Clone, Copy, Debug, PartialEq, Eq, Structural)]
pub enum CoupledExtensionIndicator {
    NotCoupled,
    Coupled,
    Unknown(u8),
}

impl CoupledExtensionIndicator {
    /// The value that the raw code `n` decodes to.
    pub open spec fn from_raw(n: u8) -> CoupledExtensionIndicator {
        if n == 0 {
            CoupledExtensionIndicator::NotCoupled
        } else if n == 1 {
            CoupledExtensionIndicator::Coupled
        } else {
            CoupledExtensionIndicator::Unknown(n)
        }
    }

    /// The raw wire code of this value.
    pub open spec fn raw(self) -> u8 {
        match self {
            CoupledExtensionIndicator::NotCoupled => 0,
            CoupledExtensionIndicator::Coupled => 1,
            CoupledExtensionIndicator::Unknown(n) => n,
        }
    }

    /// Well-formed: decoding this value's own code gives the value back.
    pub open spec fn wf(self) -> bool {
        Self::from_raw(self.raw()) == self
    }

    pub fn from_u8(n: u8) -> (r: CoupledExtensionIndicator)
        ensures
            r == Self::from_raw(n),
    {
        match n {
            0 => CoupledExtensionIndicator::NotCoupled,
            1 => CoupledExtensionIndicator::Coupled,
            _ => CoupledExtensionIndicator::Unknown(n),
        }
    }

    pub fn to_u8(self) -> (r: u8)
        ensures
            r == self.raw(),
    {
        match self {
            CoupledExtensionIndicator::NotCoupled => 0,
            CoupledExtensionIndicator::Coupled => 1,
            CoupledExtensionIndicator::Unknown(n) => n,
        }
    }
}

impl Default for CoupledExtensionIndicator {
    fn default() -> (r: Self)
        ensures
            r == CoupledExtensionIndicator::NotCoupled,
    {
        CoupledExtensionIndicator::NotCoupled
    }
}

/// Decoding is total and lossless: every raw code re-encodes to itself,
/// decoding always yields a well-formed value, and a well-formed value is
/// recovered from its own code.
pub proof fn lemma_coupled_extension_indicator_codes(n: u8, e: CoupledExtensionIndicator)
    ensures
        CoupledExtensionIndicator::from_raw(n).raw() == n,
        CoupledExtensionIndicator::from_raw(n).wf(),
        e.wf() ==> CoupledExtensionIndicator::from_raw(e.raw()) == e,
{
}

#[derive(Clone, Copy, Debug, PartialEq, Eq, Structural)]
pub enum RadioAttachedIndicator {
    NoStatement,
    Unattached,
    Attached,
    Unknown(u8),
}

impl RadioAttachedIndicator {
    /// The value that the raw code `n` decodes to.
    pub open spec fn from_raw(n: u8) -> RadioAttachedIndicator {
        if n == 0 {
            RadioAttachedIndicator::NoStatement
        } else if n == 1 {
            RadioAttachedIndicator::Unattached
        } else if n == 2 {
            RadioAttachedIndicator::Attached
        } else {
            RadioAttachedIndicator::Unknown(n)
        }
    }

    /// The raw wire code of this value.
    pub open spec fn raw(self) -> u8 {
        match self {
            RadioAttachedIndicator::NoStatement => 0,
            RadioAttachedIndicator::Unattached => 1,
            RadioAttachedIndicator::Attached => 2,
            RadioAttachedIndicator::Unknown(n) => n,
        }
    }

    /// Well-formed: decoding this value's own code gives the value back.
    pub open spec fn wf(self) -> bool {
        Self::from_raw(self.raw()) == self
    }

    pub fn from_u8(n: u8) -> (r: RadioAttachedIndicator)
        ensures
            r == Self::from_raw(n),
    {
        match n {
            0 => RadioAttachedIndicator::NoStatement,
            1 => RadioAttachedIndicator::Unattached,
            2 => RadioAttachedIndicator::Attached,
            _ => RadioAttachedIndicator::Unknown(n),
        }
    }

    pub fn to_u8(self) -> (r: u8)
        ensures
            r == self.raw(),
    {
        match self {
            RadioAttachedIndicator::NoStatement => 0,
            RadioAttachedIndicator::Unattached => 1,
            RadioAttachedIndicator::Attached => 2,
            RadioAttachedIndicator::Unknown(n) => n,
        }
    }
}

impl Default for RadioAttachedIndicator {
    fn default() -> (r: Self)
        ensures
            r == RadioAttachedIndicator::NoStatement,
    {
        RadioAttachedIndicator::NoStatement
    }
}

/// Decoding is total and lossless: every raw code re-encodes to itself,
/// decoding always yields a well-formed value, and a well-formed value is
/// recovered from its own code.
pub proof fn lemma_radio_attached_indicator_codes(n: u8, e: RadioAttachedIndicator)
    ensures
        RadioAttachedIndicator::from_raw(n).raw() == n,
        RadioAttachedIndicator::from_raw(n).wf(),
        e.wf() ==> RadioAttachedIndicator::from_raw(e.raw()) == e,
{
}

#[derive(Clone, Copy, Debug, PartialEq, Eq, Structural)]
pub enum IntercomAttachedIndicator {
    NoStatement,
    Unattached,
    Attached,
    Unknown(u8),
}

impl IntercomAttachedIndicator {
    /// The value that the raw code `n` decodes to.
    pub open spec fn from_raw(n: u8) -> IntercomAttachedIndicator {
        if n == 0 {
            IntercomAttachedIndicator::NoStatement
        } else if n == 1 {
            IntercomAttachedIndicator::Unattached
        } else if n == 2 {
            IntercomAttachedIndicator::Attached
        } else {
            IntercomAttachedIndicator::Unknown(n)
        }
    }

    /// The raw wire code of this value.
    pub open spec fn raw(self) -> u8 {
        match self {
            IntercomAttachedIndicator::NoStatement => 0,
            IntercomAttachedIndicator::Unattached => 1,
            IntercomAttachedIndicator::Attached => 2,
            IntercomAttachedIndicator::Unknown(n) => n,
        }
    }

    /// Well-formed: decoding this value's own code gives the value back.
    pub open spec fn wf(self) -> bool {
        Self::from_raw(self.raw()) == self
    }

    pub fn from_u8(n: u8) -> (r: IntercomAttachedIndicator)
        ensures
            r == Self::from_raw(n),
    {
        match n {
            0 => IntercomAttachedIndicator::NoStatement,
            1 => IntercomAttachedIndicator::Unattached,
            2 => IntercomAttachedIndicator::Attached,
            _ => IntercomAttachedIndicator::Unknown(n),
        }
    }

    pub fn to_u8(self) -> (r: u8)
        ensures
            r == self.raw(),
    {
        match self {
            IntercomAttachedIndicator::NoStatement => 0,
            IntercomAttachedIndicator::Unattached => 1,
            IntercomAttachedIndicator::Attached => 2,
            IntercomAttachedIndicator::Unknown(n) => n,
        }
    }
}

impl Default for IntercomAttachedIndicator {
    fn default() -> (r: Self)
        ensures
            r == IntercomAttachedIndicator::NoStatement,
    {
        IntercomAttachedIndicator::NoStatement
    }
}

/// Decoding is total and lossless: every raw code re-encodes to itself,
/// decoding always yields a well-formed value, and a well-formed value is
/// recovered from its own code.
pub proof fn lemma_intercom_attached_indicator_codes(n: u8, e: IntercomAttachedIndicator)
    ensures
        IntercomAttachedIndicator::from_raw(n).raw() == n,
        IntercomAttachedIndicator::from_raw(n).wf(),
        e.wf() ==> IntercomAttachedIndicator::from_raw(e.raw()) == e,
{
}

#[derive(Clone, Copy, Debug, PartialEq, Eq, Structural)]
pub enum IffSimulationMode {
    Regeneration,
    Interactive,
    Unknown(u8),
}

impl IffSimulationMode {
    /// The value that the raw code `n` decodes to.
    pub open spec fn from_raw(n: u8) -> IffSimulationMode {
        if n == 0 {
            IffSimulationMode::Regeneration
        } else if n == 1 {
            IffSimulationMode::Interactive
        } else {
            IffSimulationMode::Unknown(n)
        }
    }

    /// The raw wire code of this value.
    pub open spec fn raw(self) -> u8 {
        match self {
            IffSimulationMode::Regeneration => 0,
            IffSimulationMode::Interactive => 1,
            IffSimulationMode::Unknown(n) => n,
        }
    }

    /// Well-formed: decoding this value's own code gives the value back.
    pub open spec fn wf(self) -> bool {
        Self::from_raw(self.raw()) == self
    }

    pub fn from_u8(n: u8) -> (r: IffSimulationMode)
        ensures
            r == Self::from_raw(n),
    {
        match n {
            0 => IffSimulationMode::Regeneration,
            1 => IffSimulationMode::Interactive,
            _ => IffSimulationMode::Unknown(n),
        }
    }

    pub fn to_u8(self) -> (r: u8)
        ensures
            r == self.raw(),
    {
        match self {
            IffSimulationMode::Regeneration => 0,
            IffSimulationMode::Interactive => 1,
            IffSimulationMode::Unknown(n) => n,
        }
    }
}

impl Default for IffSimulationMode {
    fn default() -> (r: Self)
        ensures
            r == IffSimulationMode::Regeneration,
    {
        IffSimulationMode::Regeneration
    }
}

/// Decoding is total and lossless: every raw code re-encodes to itself,
/// decoding always yields a well-formed value, and a well-formed value is
/// recovered from its own code.
pub proof fn lemma_iff_simulation_mode_codes(n: u8, e: IffSimulationMode)
    ensures
        IffSimulationMode::from_raw(n).raw() == n,
        IffSimulationMode::from_raw(n).wf(),
        e.wf() ==> IffSimulationMode::from_raw(e.raw()) == e,
{
}

#[derive(Clone, Copy, Debug, PartialEq, Eq, Structural)]
pub enum EntityPaintScheme {
    UniformColor,
    Camouflage,
    Unknown(u8),
}

impl EntityPaintScheme {
    /// The value that the raw code `n` decodes to.
    pub open spec fn from_raw(n: u8) -> EntityPaintScheme {
        if n == 0 {
            EntityPaintScheme::UniformColor
        } else if n == 1 {
            EntityPaintScheme::Camouflage
        } else {
            EntityPaintScheme::Unknown(n)
        }
    }

    /// The raw wire code of this value.
    pub open spec fn raw(self) -> u8 {
        match self {
            EntityPaintScheme::UniformColor => 0,
            EntityPaintScheme::Camouflage => 1,
            EntityPaintScheme::Unknown(n) => n,
        }
    }

    /// Well-formed: decoding this value's own code gives the value back.
    pub open spec fn wf(self) -> bool {
        Self::from_raw(self.raw()) == self
    }

    pub fn from_u8(n: u8) -> (r: EntityPaintScheme)
        ensures
            r == Self::from_raw(n),
    {
        match n {
            0 => EntityPaintScheme::UniformColor,
            1 => EntityPaintScheme::Camouflage,
            _ => EntityPaintScheme::Unknown(n),
        }
    }

    pub fn to_u8(self) -> (r: u8)
        ensures
            r == self.raw(),
    {
        match self {
            EntityPaintScheme::UniformColor => 0,
            EntityPaintScheme::Camouflage => 1,
            EntityPaintScheme::Unknown(n) => n,
        }
    }
}

impl Default for EntityPaintScheme {
    fn default() -> (r: Self)
        ensures
            r == EntityPaintScheme::UniformColor,
    {
        EntityPaintScheme::UniformColor
    }
}

/// Decoding is total and lossless: every raw code re-encodes to itself,
/// decoding always yields a well-formed value, and a well-formed value is
/// recovered from its own code.
pub proof fn lemma_entity_paint_scheme_codes(n: u8, e: EntityPaintScheme)
    ensures
        EntityPaintScheme::from_raw(n).raw() == n,
        EntityPaintScheme::from_raw(n).wf(),
        e.wf() ==> EntityPaintScheme::from_raw(e.raw()) == e,
{
}

#[derive(Clone, Copy, Debug, PartialEq, Eq, Structural)]
pub enum EntityMobilityKill {
    NoMobilityKill,
    MobilityKill,
    Unknown(u8),
}

impl EntityMobilityKill {
    /// The value that the raw code `n` decodes to.
    pub open spec fn from_raw(n: u8) -> EntityMobilityKill {
        if n == 0 {
            EntityMobilityKill::NoMobilityKill
        } else if n == 1 {
            EntityMobilityKill::MobilityKill
        } else {
            EntityMobilityKill::Unknown(n)
        }
    }

    /// The raw wire code of this value.
    pub open spec fn raw(self) -> u8 {
        match self {
            EntityMobilityKill::NoMobilityKill => 0,
            EntityMobilityKill::MobilityKill => 1,
            EntityMobilityKill::Unknown(n) => n,
        }
    }

    /// Well-formed: decoding this value's own code gives the value back.
    pub open spec fn wf(self) -> bool {
        Self::from_raw(self.raw()) == self
    }

    pub fn from_u8(n: u8) -> (r: EntityMobilityKill)
        ensures
            r == Self::from_raw(n),
    {
        match n {
            0 => EntityMobilityKill::NoMobilityKill,
            1 => EntityMobilityKill::MobilityKill,
            _ => EntityMobilityKill::Unknown(n),
        }
    }

    pub fn to_u8(self) -> (r: u8)
        ensures
            r == self.raw(),
    {
        match self {
            EntityMobilityKill::NoMobilityKill => 0,
            EntityMobilityKill::MobilityKill => 1,
            EntityMobilityKill::Unknown(n) => n,
        }
    }
}

impl Default for EntityMobilityKill {
    fn default() -> (r: Self)
        ensures
            r == EntityMobilityKill::NoMobilityKill,
    {
        EntityMobilityKill::NoMobilityKill
    }
}

/// Decoding is total and lossless: every raw code re-encodes to itself,
/// decoding always yields a well-formed value, and a well-formed value is
/// recovered from its own code.
pub proof fn lemma_entity_mobility_kill_codes(n: u8, e: EntityMobilityKill)
    ensures
        EntityMobilityKill::from_raw(n).raw() == n,
        EntityMobilityKill::from_raw(n).wf(),
        e.wf() ==> EntityMobilityKill::from_raw(e.raw()) == e,
{
}

#[derive(Clone, Copy, Debug, PartialEq, Eq, Structural)]
pub enum EntityFirePower {
    NoFirePowerKill,
    FirePowerKill,
    Unknown(u8),
}

impl EntityFirePower {
    /// The value that the raw code `n` decodes to.
    pub open spec fn from_raw(n: u8) -> EntityFirePower {
        if n == 0 {
            EntityFirePower::NoFirePowerKill
        } else if n == 1 {
            EntityFirePower::FirePowerKill
        } else {
            EntityFirePower::Unknown(n)
        }
    }

    /// The raw wire code of this value.
    pub open spec fn raw(self) -> u8 {
        match self {
            EntityFirePower::NoFirePowerKill => 0,
            EntityFirePower::FirePowerKill => 1,
            EntityFirePower::Unknown(n) => n,
        }
    }

    /// Well-formed: decoding this value's own code gives the value back.
    pub open spec fn wf(self) -> bool {
        Self::from_raw(self.raw()) == self
    }

    pub fn from_u8(n: u8) -> (r: EntityFirePower)
        ensures
            r == Self::from_raw(n),
    {
        match n {
            0 => EntityFirePower::NoFirePowerKill,
            1 => EntityFirePower::FirePowerKill,
            _ => EntityFirePower::Unknown(n),
        }
    }

    pub fn to_u8(self) -> (r: u8)
        ensures
            r == self.raw(),
    {
        match self {
            EntityFirePower::NoFirePowerKill => 0,
            EntityFirePower::FirePowerKill => 1,
            EntityFirePower::Unknown(n) => n,
        }
    }
}

impl Default for EntityFirePower {
    fn default() -> (r: Self)
        ensures
            r == EntityFirePower::NoFirePowerKill,
    {
        EntityFirePower::NoFirePowerKill
    }
}

/// Decoding is total and lossless: every raw code re-encodes to itself,
/// decoding always yields a well-formed value, and a well-formed value is
/// recovered from its own code.
pub proof fn lemma_entity_fire_power_codes(n: u8, e: EntityFirePower)
    ensures
        EntityFirePower::from_raw(n).raw() == n,
        EntityFirePower::from_raw(n).wf(),
        e.wf() ==> EntityFirePower::from_raw(e.raw()) == e,
{
}

#[derive(Clone, Copy, Debug, PartialEq, Eq, Structural)]
pub enum EntityDamage {
    NoDamage,
    SlightDamage,
    ModerateDamage,
    Destroyed,
    Unknown(u8),
}

impl EntityDamage {
    /// The value that the raw code `n` decodes to.
    pub open spec fn from_raw(n: u8) -> EntityDamage {
        if n == 0 {
            EntityDamage::NoDamage
        } else if n == 1 {
            EntityDamage::SlightDamage
        } else if n == 2 {
            EntityDamage::ModerateDamage
        } else if n == 3 {
            EntityDamage::Destroyed
        } else {
            EntityDamage::Unknown(n)
        }
    }

    /// The raw wire code of this value.
    pub open spec fn raw(self) -> u8 {
        match self {
            EntityDamage::NoDamage => 0,
            EntityDamage::SlightDamage => 1,
            EntityDamage::ModerateDamage => 2,
            EntityDamage::Destroyed => 3,
            EntityDamage::Unknown(n) => n,
        }
    }

    /// Well-formed: decoding this value's own code gives the value back.
    pub open spec fn wf(self) -> bool {
        Self::from_raw(self.raw()) == self
    }

    pub fn from_u8(n: u8) -> (r: EntityDamage)
        ensures
            r == Self::from_raw(n),
    {
        match n {
            0 => EntityDamage::NoDamage,
            1 => EntityDamage::SlightDamage,
            2 => EntityDamage::ModerateDamage,
            3 => EntityDamage::Destroyed,
            _ => EntityDamage::Unknown(n),
        }
    }

    pub fn to_u8(self) -> (r: u8)
        ensures
            r == self.raw(),
    {
        match self {
            EntityDamage::NoDamage => 0,
            EntityDamage::SlightDamage => 1,
            EntityDamage::ModerateDamage => 2,
            EntityDamage::Destroyed => 3,
            EntityDamage::Unknown(n) => n,
        }
    }
}

impl Default for EntityDamage {
    fn default() -> (r: Self)
        ensures
            r == EntityDamage::NoDamage,
    {
        EntityDamage::NoDamage
    }
}

/// Decoding is total and lossless: every raw code re-encodes to itself,
/// decoding always yields a well-formed value, and a well-formed value is
/// recovered from its own code.
pub proof fn lemma_entity_damage_codes(n: u8, e: EntityDamage)
    ensures
        EntityDamage::from_raw(n).raw() == n,
        EntityDamage::from_raw(n).wf(),
        e.wf() ==> EntityDamage::from_raw(e.raw()) == e,
{
}

#[derive(Clone, Copy, Debug, PartialEq, Eq, Structural)]
pub enum EntitySmoke {
    NotSmoking,
    SmokePlumeRising,
    EmittingEngineSmoke,
    EmittingEngineSmokeAndSmokePlumeRising,
    Unknown(u8),
}

impl EntitySmoke {
    /// The value that the raw code `n` decodes to.
    pub open spec fn from_raw(n: u8) -> EntitySmoke {
        if n == 0 {
            EntitySmoke::NotSmoking
        } else if n == 1 {
            EntitySmoke::SmokePlumeRising
        } else if n == 2 {
            EntitySmoke::EmittingEngineSmoke
        } else if n == 3 {
            EntitySmoke::EmittingEngineSmokeAndSmokePlumeRising
        } else {
            EntitySmoke::Unknown(n)
        }
    }

    /// The raw wire code of this value.
    pub open spec fn raw(self) -> u8 {
        match self {
            EntitySmoke::NotSmoking => 0,
            EntitySmoke::SmokePlumeRising => 1,
            EntitySmoke::EmittingEngineSmoke => 2,
            EntitySmoke::EmittingEngineSmokeAndSmokePlumeRising => 3,
            EntitySmoke::Unknown(n) => n,
        }
    }

    /// Well-formed: decoding this value's own code gives the value back.
    pub open spec fn wf(self) -> bool {
        Self::from_raw(self.raw()) == self
    }

    pub fn from_u8(n: u8) -> (r: EntitySmoke)
        ensures
            r == Self::from_raw(n),
    {
        match n {
            0 => EntitySmoke::NotSmoking,
            1 => EntitySmoke::SmokePlumeRising,
            2 => EntitySmoke::EmittingEngineSmoke,
            3 => EntitySmoke::EmittingEngineSmokeAndSmokePlumeRising,
            _ => EntitySmoke::Unknown(n),
        }
    }

    pub fn to_u8(self) -> (r: u8)
        ensures
            r == self.raw(),
    {
        match self {
            EntitySmoke::NotSmoking => 0,
            EntitySmoke::SmokePlumeRising => 1,
            EntitySmoke::EmittingEngineSmoke => 2,
            EntitySmoke::EmittingEngineSmokeAndSmokePlumeRising => 3,
            EntitySmoke::Unknown(n) => n,
        }
    }
}

impl Default for EntitySmoke {
    fn default() -> (r: Self)
        ensures
            r == EntitySmoke::NotSmoking,
    {
        EntitySmoke::NotSmoking
    }
}

/// Decoding is total and lossless: every raw code re-encodes to itself,
/// decoding always yields a well-formed value, and a well-formed value is
/// recovered from its own code.
pub proof fn lemma_entity_smoke_codes(n: u8, e: EntitySmoke)
    ensures
        EntitySmoke::from_raw(n).raw() == n,
        EntitySmoke::from_raw(n).wf(),
        e.wf() ==> EntitySmoke::from_raw(e.raw()) == e,
{
}

#[derive(Clone, Copy, Debug, PartialEq, Eq, Structural)]
pub enum EntityTrailingEffect {
    NoTrailingEffect,
    Small,
    Medium,
    Large,
    Unknown(u8),
}

impl EntityTrailingEffect {
    /// The value that the raw code `n` decodes to.
    pub open spec fn from_raw(n: u8) -> EntityTrailingEffect {
        if n == 0 {
            EntityTrailingEffect::NoTrailingEffect
        } else if n == 1 {
            EntityTrailingEffect::Small
        } else if n == 2 {
            EntityTrailingEffect::Medium
        } else if n == 3 {
            EntityTrailingEffect::Large
        } else {
            EntityTrailingEffect::Unknown(n)
        }
    }

    /// The raw wire code of this value.
    pub open spec fn raw(self) -> u8 {
        match self {
            EntityTrailingEffect::NoTrailingEffect => 0,
            EntityTrailingEffect::Small => 1,
            EntityTrailingEffect::Medium => 2,
            EntityTrailingEffect::Large => 3,
            EntityTrailingEffect::Unknown(n) => n,
        }
    }

    /// Well-formed: decoding this value's own code gives the value back.
    pub open spec fn wf(self) -> bool {
        Self::from_raw(self.raw()) == self
    }

    pub fn from_u8(n: u8) -> (r: EntityTrailingEffect)
        ensures
            r == Self::from_raw(n),
    {
        match n {
            0 => EntityTrailingEffect::NoTrailingEffect,
            1 => EntityTrailingEffect::Small,
            2 => EntityTrailingEffect::Medium,
            3 => EntityTrailingEffect::Large,
            _ => EntityTrailingEffect::Unknown(n),
        }
    }

    pub fn to_u8(self) -> (r: u8)
        ensures
            r == self.raw(),
    {
        match self {
            EntityTrailingEffect::NoTrailingEffect => 0,
            EntityTrailingEffect::Small => 1,
            EntityTrailingEffect::Medium => 2,
            EntityTrailingEffect::Large => 3,
            EntityTrailingEffect::Unknown(n) => n,
        }
    }
}

impl Default for EntityTrailingEffect {
    fn default() -> (r: Self)
        ensures
            r == EntityTrailingEffect::NoTrailingEffect,
    {
        EntityTrailingEffect::NoTrailingEffect
    }
}

/// Decoding is total and lossless: every raw code re-encodes to itself,
/// decoding always yields a well-formed value, and a well-formed value is
/// recovered from its own code.
pub proof fn lemma_entity_trailing_effect_codes(n: u8, e: EntityTrailingEffect)
    ensures
        EntityTrailingEffect::from_raw(n).raw() == n,
        EntityTrailingEffect::from_raw(n).wf(),
        e.wf() ==> EntityTrailingEffect::from_raw(e.raw()) == e,
{
}

#[derive(Clone, Copy, Debug, PartialEq, Eq, Structural)]
pub enum EntityHatchState {
    NotApplicable,
    Closed,
    Popped,
    PoppedAndPersonVisible,
    Open,
    OpenAndPersonVisible,
    Unused1,
    Unused2,
    Unknown(u8),
}

impl EntityHatchState {
    /// The value that the raw code `n` decodes to.
    pub open spec fn from_raw(n: u8) -> EntityHatchState {
        if n == 0 {
            EntityHatchState::NotApplicable
        } else if n == 1 {
            EntityHatchState::Closed
        } else if n == 2 {
            EntityHatchState::Popped
        } else if n == 3 {
            EntityHatchState::PoppedAndPersonVisible
        } else if n == 4 {
            EntityHatchState::Open
        } else if n == 5 {
            EntityHatchState::OpenAndPersonVisible
        } else if n == 6 {
            EntityHatchState::Unused1
        } else if n == 7 {
            EntityHatchState::Unused2
        } else {
            EntityHatchState::Unknown(n)
        }
    }

    /// The raw wire code of this value.
    pub open spec fn raw(self) -> u8 {
        match self {
            EntityHatchState::NotApplicable => 0,
            EntityHatchState::Closed => 1,
            EntityHatchState::Popped => 2,
            EntityHatchState::PoppedAndPersonVisible => 3,
            EntityHatchState::Open => 4,
            EntityHatchState::OpenAndPersonVisible => 5,
            EntityHatchState::Unused1 => 6,
            EntityHatchState::Unused2 => 7,
            EntityHatchState::Unknown(n) => n,
        }
    }

    /// Well-formed: decoding this value's own code gives the value back.
    pub open spec fn wf(self) -> bool {
        Self::from_raw(self.raw()) == self
    }

    pub fn from_u8(n: u8) -> (r: EntityHatchState)
        ensures
            r == Self::from_raw(n),
    {
        match n {
            0 => EntityHatchState::NotApplicable,
            1 => EntityHatchState::Closed,
            2 => EntityHatchState::Popped,
            3 => EntityHatchState::PoppedAndPersonVisible,
            4 => EntityHatchState::Open,
            5 => EntityHatchState::OpenAndPersonVisible,
            6 => EntityHatchState::Unused1,
            7 => EntityHatchState::Unused2,
            _ => EntityHatchState::Unknown(n),
        }
    }

    pub fn to_u8(self) -> (r: u8)
        ensures
            r == self.raw(),
    {
        match self {
            EntityHatchState::NotApplicable => 0,
            EntityHatchState::Closed => 1,
            EntityHatchState::Popped => 2,
            EntityHatchState::PoppedAndPersonVisible => 3,
            EntityHatchState::Open => 4,
            EntityHatchState::OpenAndPersonVisible => 5,
            EntityHatchState::Unused1 => 6,
            EntityHatchState::Unused2 => 7,
            EntityHatchState::Unknown(n) => n,
        }
    }
}

impl Default for EntityHatchState {
    fn default() -> (r: Self)
        ensures
            r == EntityHatchState::NotApplicable,
    {
        EntityHatchState::NotApplicable
    }
}

/// Decoding is total and lossless: every raw code re-encodes to itself,
/// decoding always yields a well-formed value, and a well-formed value is
/// recovered from its own code.
pub proof fn lemma_entity_hatch_state_codes(n: u8, e: EntityHatchState)
    ensures
        EntityHatchState::from_raw(n).raw() == n,
        EntityHatchState::from_raw(n).wf(),
        e.wf() ==> EntityHatchState::from_raw(e.raw()) == e,
{
}

#[derive(Clone, Copy, Debug, PartialEq, Eq, Structural)]
pub enum EntityLights {
    NoLights,
    RunningLightsOn,
    NavigationLightsOn,
    FromationLightsOn,
    Unused1,
    Unused2,
    Unused3,
    Unused4,
    Unknown(u8),
}

impl EntityLights {
    /// The value that the raw code `n` decodes to.
    pub open spec fn from_raw(n: u8) -> EntityLights {
        if n == 0 {
            EntityLights::NoLights
        } else if n == 1 {
            EntityLights::RunningLightsOn
        } else if n == 2 {
            EntityLights::NavigationLightsOn
        } else if n == 3 {
            EntityLights::FromationLightsOn
        } else if n == 4 {
            EntityLights::Unused1
        } else if n == 5 {
            EntityLights::Unused2
        } else if n == 6 {
            EntityLights::Unused3
        } else if n == 7 {
            EntityLights::Unused4
        } else {
            EntityLights::Unknown(n)
        }
    }

    /// The raw wire code of this value.
    pub open spec fn raw(self) -> u8 {
        match self {
            EntityLights::NoLights => 0,
            EntityLights::RunningLightsOn => 1,
            EntityLights::NavigationLightsOn => 2,
            EntityLights::FromationLightsOn => 3,
            EntityLights::Unused1 => 4,
            EntityLights::Unused2 => 5,
            EntityLights::Unused3 => 6,
            EntityLights::Unused4 => 7,
            EntityLights::Unknown(n) => n,
        }
    }

    /// Well-formed: decoding this value's own code gives the value back.
    pub open spec fn wf(self) -> bool {
        Self::from_raw(self.raw()) == self
    }

    pub fn from_u8(n: u8) -> (r: EntityLights)
        ensures
            r == Self::from_raw(n),
    {
        match n {
            0 => EntityLights::NoLights,
            1 => EntityLights::RunningLightsOn,
            2 => EntityLights::NavigationLightsOn,
            3 => EntityLights::FromationLightsOn,
            4 => EntityLights::Unused1,
            5 => EntityLights::Unused2,
            6 => EntityLights::Unused3,
            7 => EntityLights::Unused4,
            _ => EntityLights::Unknown(n),
        }
    }

    pub fn to_u8(self) -> (r: u8)
        ensures
            r == self.raw(),
    {
        match self {
            EntityLights::NoLights => 0,
            EntityLights::RunningLightsOn => 1,
            EntityLights::NavigationLightsOn => 2,
            EntityLights::FromationLightsOn => 3,
            EntityLights::Unused1 => 4,
            EntityLights::Unused2 => 5,
            EntityLights::Unused3 => 6,
            EntityLights::Unused4 => 7,
            EntityLights::Unknown(n) => n,
        }
    }
}

impl Default for EntityLights {
    fn default() -> (r: Self)
        ensures
            r == EntityLights::NoLights,
    {
        EntityLights::NoLights
    }
}

/// Decoding is total and lossless: every raw code re-encodes to itself,
/// decoding always yields a well-formed value, and a well-formed value is
/// recovered from its own code.
pub proof fn lemma_entity_lights_codes(n: u8, e: EntityLights)
    ensures
        EntityLights::from_raw(n).raw() == n,
        EntityLights::from_raw(n).wf(),
        e.wf() ==> EntityLights::from_raw(e.raw()) == e,
{
}

#[derive(Clone, Copy, Debug, PartialEq, Eq, Structural)]
pub enum EntityFlamingEffect {
    NoFlaming,
    FlamesPresent,
    Unknown(u8),
}

impl EntityFlamingEffect {
    /// The value that the raw code `n` decodes to.
    pub open spec fn from_raw(n: u8) -> EntityFlamingEffect {
        if n == 0 {
            EntityFlamingEffect::NoFlaming
        } else if n == 1 {
            EntityFlamingEffect::FlamesPresent
        } else {
            EntityFlamingEffect::Unknown(n)
        }
    }

    /// The raw wire code of this value.
    pub open spec fn raw(self) -> u8 {
        match self {
            EntityFlamingEffect::NoFlaming => 0,
            EntityFlamingEffect::FlamesPresent => 1,
            EntityFlamingEffect::Unknown(n) => n,
        }
    }

    /// Well-formed: decoding this value's own code gives the value back.
    pub open spec fn wf(self) -> bool {
        Self::from_raw(self.raw()) == self
    }

    pub fn from_u8(n: u8) -> (r: EntityFlamingEffect)
        ensures
            r == Self::from_raw(n),
    {
        match n {
            0 => EntityFlamingEffect::NoFlaming,
            1 => EntityFlamingEffect::FlamesPresent,
            _ => EntityFlamingEffect::Unknown(n),
        }
    }

    pub fn to_u8(self) -> (r: u8)
        ensures
            r == self.raw(),
    {
        match self {
            EntityFlamingEffect::NoFlaming => 0,
            EntityFlamingEffect::FlamesPresent => 1,
            EntityFlamingEffect::Unknown(n) => n,
        }
    }
}

impl Default for EntityFlamingEffect {
    fn default() -> (r: Self)
        ensures
            r == EntityFlamingEffect::NoFlaming,
    {
        EntityFlamingEffect::NoFlaming
    }
}

/// Decoding is total and lossless: every raw code re-encodes to itself,
/// decoding always yields a well-formed value, and a well-formed value is
/// recovered from its own code.
pub proof fn lemma_entity_flaming_effect_codes(n: u8, e: EntityFlamingEffect)
    ensures
        EntityFlamingEffect::from_raw(n).raw() == n,
        EntityFlamingEffect::from_raw(n).wf(),
        e.wf() ==> EntityFlamingEffect::from_raw(e.raw()) == e,
{
}

#[derive(Clone, Copy, Debug, PartialEq, Eq, Structural)]
pub enum Launcher {
    NotRaised,
    Raised,
    Unknown(u8),
}

impl Launcher {
    /// The value that the raw code `n` decodes to.
    pub open spec fn from_raw(n: u8) -> Launcher {
        if n == 0 {
            Launcher::NotRaised
        } else if n == 1 {
            Launcher::Raised
        } else {
            Launcher::Unknown(n)
        }
    }

    /// The raw wire code of this value.
    pub open spec fn raw(self) -> u8 {
        match self {
            Launcher::NotRaised => 0,
            Launcher::Raised => 1,
            Launcher::Unknown(n) => n,
        }
    }

    /// Well-formed: decoding this value's own code gives the value back.
    pub open spec fn wf(self) -> bool {
        Self::from_raw(self.raw()) == self
    }

    pub fn from_u8(n: u8) -> (r: Launcher)
        ensures
            r == Self::from_raw(n),
    {
        match n {
            0 => Launcher::NotRaised,
            1 => Launcher::Raised,
            _ => Launcher::Unknown(n),
        }
    }

    pub fn to_u8(self) -> (r: u8)
        ensures
            r == self.raw(),
    {
        match self {
            Launcher::NotRaised => 0,
            Launcher::Raised => 1,
            Launcher::Unknown(n) => n,
        }
    }
}

impl Default for Launcher {
    fn default() -> (r: Self)
        ensures
            r == Launcher::NotRaised,
    {
        Launcher::NotRaised
    }
}

/// Decoding is total and lossless: every raw code re-encodes to itself,
/// decoding always yields a well-formed value, and a well-formed value is
/// recovered from its own code.
pub proof fn lemma_launcher_codes(n: u8, e: Launcher)
    ensures
        Launcher::from_raw(n).raw() == n,
        Launcher::from_raw(n).wf(),
        e.wf() ==> Launcher::from_raw(e.raw()) == e,
{
}

#[derive(Clone, Copy, Debug, PartialEq, Eq, Structural)]
pub enum Camouflage {
    Desert,
    Winter,
    Forest,
    Unknown(u8),
}

impl Camouflage {
    /// The value that the raw code `n` decodes to.
    pub open spec fn from_raw(n: u8) -> Camouflage {
        if n == 0 {
            Camouflage::Desert
        } else if n == 1 {
            Camouflage::Winter
        } else if n == 2 {
            Camouflage::Forest
        } else {
            Camouflage::Unknown(n)
        }
    }

    /// The raw wire code of this value.
    pub open spec fn raw(self) -> u8 {
        match self {
            Camouflage::Desert => 0,
            Camouflage::Winter => 1,
            Camouflage::Forest => 2,
            Camouflage::Unknown(n) => n,
        }
    }

    /// Well-formed: decoding this value's own code gives the value back.
    pub open spec fn wf(self) -> bool {
        Self::from_raw(self.raw()) == self
    }

    pub fn from_u8(n: u8) -> (r: Camouflage)
        ensures
            r == Self::from_raw(n),
    {
        match n {
            0 => Camouflage::Desert,
            1 => Camouflage::Winter,
            2 => Camouflage::Forest,
            _ => Camouflage::Unknown(n),
        }
    }

    pub fn to_u8(self) -> (r: u8)
        ensures
            r == self.raw(),
    {
        match self {
            Camouflage::Desert => 0,
            Camouflage::Winter => 1,
            Camouflage::Forest => 2,
            Camouflage::Unknown(n) => n,
        }
    }
}

impl Default for Camouflage {
    fn default() -> (r: Self)
        ensures
            r == Camouflage::Desert,
    {
        Camouflage::Desert
    }
}

/// Decoding is total and lossless: every raw code re-encodes to itself,
/// decoding always yields a well-formed value, and a well-formed value is
/// recovered from its own code.
pub proof fn lemma_camouflage_codes(n: u8, e: Camouflage)
    ensures
        Camouflage::from_raw(n).raw() == n,
        Camouflage::from_raw(n).wf(),
        e.wf() ==> Camouflage::from_raw(e.raw()) == e,
{
}

#[derive(Clone, Copy, Debug, PartialEq, Eq, Structural)]
pub enum Concealed {
    NotConcealed,
    Concealed,
    Unknown(u8),
}

impl Concealed {
    /// The value that the raw code `n` decodes to.
    pub open spec fn from_raw(n: u8) -> Concealed {
        if n == 0 {
            Concealed::NotConcealed
        } else if n == 1 {
            Concealed::Concealed
        } else {
            Concealed::Unknown(n)
        }
    }

    /// The raw wire code of this value.
    pub open spec fn raw(self) -> u8 {
        match self {
            Concealed::NotConcealed => 0,
            Concealed::Concealed => 1,
            Concealed::Unknown(n) => n,
        }
    }

    /// Well-formed: decoding this value's own code gives the value back.
    pub open spec fn wf(self) -> bool {
        Self::from_raw(self.raw()) == self
    }

    pub fn from_u8(n: u8) -> (r: Concealed)
        ensures
            r == Self::from_raw(n),
    {
        match n {
            0 => Concealed::NotConcealed,
            1 => Concealed::Concealed,
            _ => Concealed::Unknown(n),
        }
    }

    pub fn to_u8(self) -> (r: u8)
        ensures
            r == self.raw(),
    {
        match self {
            Concealed::NotConcealed => 0,
            Concealed::Concealed => 1,
            Concealed::Unknown(n) => n,
        }
    }
}

impl Default for Concealed {
    fn default() -> (r: Self)
        ensures
            r == Concealed::NotConcealed,
    {
        Concealed::NotConcealed
    }
}

/// Decoding is total and lossless: every raw code re-encodes to itself,
/// decoding always yields a well-formed value, and a well-formed value is
/// recovered from its own code.
pub proof fn lemma_concealed_codes(n: u8, e: Concealed)
    ensures
        Concealed::from_raw(n).raw() == n,
        Concealed::from_raw(n).wf(),
        e.wf() ==> Concealed::from_raw(e.raw()) == e,
{
}

#[derive(Clone, Copy, Debug, PartialEq, Eq, Structural)]
pub enum FrozenStatus {
    NotFrozen,
    Frozen,
    Unknown(u8),
}

impl FrozenStatus {
    /// The value that the raw code `n` decodes to.
    pub open spec fn from_raw(n: u8) -> FrozenStatus {
        if n == 0 {
            FrozenStatus::NotFrozen
        } else if n == 1 {
            FrozenStatus::Frozen
        } else {
            FrozenStatus::Unknown(n)
        }
    }

    /// The raw wire code of this value.
    pub open spec fn raw(self) -> u8 {
        match self {
            FrozenStatus::NotFrozen => 0,
            FrozenStatus::Frozen => 1,
            FrozenStatus::Unknown(n) => n,
        }
    }

    /// Well-formed: decoding this value's own code gives the value back.
    pub open spec fn wf(self) -> bool {
        Self::from_raw(self.raw()) == self
    }

    pub fn from_u8(n: u8) -> (r: FrozenStatus)
        ensures
            r == Self::from_raw(n),
    {
        match n {
            0 => FrozenStatus::NotFrozen,
            1 => FrozenStatus::Frozen,
            _ => FrozenStatus::Unknown(n),
        }
    }

    pub fn to_u8(self) -> (r: u8)
        ensures
            r == self.raw(),
    {
        match self {
            FrozenStatus::NotFrozen => 0,
            FrozenStatus::Frozen => 1,
            FrozenStatus::Unknown(n) => n,
        }
    }
}

impl Default for FrozenStatus {
    fn default() -> (r: Self)
        ensures
            r == FrozenStatus::NotFrozen,
    {
        FrozenStatus::NotFrozen
    }
}

/// Decoding is total and lossless: every raw code re-encodes to itself,
/// decoding always yields a well-formed value, and a well-formed value is
/// recovered from its own code.
pub proof fn lemma_frozen_status_codes(n: u8, e: FrozenStatus)
    ensures
        FrozenStatus::from_raw(n).raw() == n,
        FrozenStatus::from_raw(n).wf(),
        e.wf() ==> FrozenStatus::from_raw(e.raw()) == e,
{
}

#[derive(Clone, Copy, Debug, PartialEq, Eq, Structural)]
pub enum PowerPlantStatus {
    Off,
    On,
    Unknown(u8),
}

impl PowerPlantStatus {
    /// The value that the raw code `n` decodes to.
    pub open spec fn from_raw(n: u8) -> PowerPlantStatus {
        if n == 0 {
            PowerPlantStatus::Off
        } else if n == 1 {
            PowerPlantStatus::On
        } else {
            PowerPlantStatus::Unknown(n)
        }
    }

    /// The raw wire code of this value.
    pub open spec fn raw(self) -> u8 {
        match self {
            PowerPlantStatus::Off => 0,
            PowerPlantStatus::On => 1,
            PowerPlantStatus::Unknown(n) => n,
        }
    }

    /// Well-formed: decoding this value's own code gives the value back.
    pub open spec fn wf(self) -> bool {
        Self::from_raw(self.raw()) == self
    }

    pub fn from_u8(n: u8) -> (r: PowerPlantStatus)
        ensures
            r == Self::from_raw(n),
    {
        match n {
            0 => PowerPlantStatus::Off,
            1 => PowerPlantStatus::On,
            _ => PowerPlantStatus::Unknown(n),
        }
    }

    pub fn to_u8(self) -> (r: u8)
        ensures
            r == self.raw(),
    {
        match self {
            PowerPlantStatus::Off => 0,
            PowerPlantStatus::On => 1,
            PowerPlantStatus::Unknown(n) => n,
        }
    }
}

impl Default for PowerPlantStatus {
    fn default() -> (r: Self)
        ensures
            r == PowerPlantStatus::Off,
    {
        PowerPlantStatus::Off
    }
}

/// Decoding is total and lossless: every raw code re-encodes to itself,
/// decoding always yields a well-formed value, and a well-formed value is
/// recovered from its own code.
pub proof fn lemma_power_plant_status_codes(n: u8, e: PowerPlantStatus)
    ensures
        PowerPlantStatus::from_raw(n).raw() == n,
        PowerPlantStatus::from_raw(n).wf(),
        e.wf() ==> PowerPlantStatus::from_raw(e.raw()) == e,
{
}

#[derive(Clone, Copy, Debug, PartialEq, Eq, Structural)]
pub enum State {
    Active,
    Deactivated,
    Unknown(u8),
}

impl State {
    /// The value that the raw code `n` decodes to.
    pub open spec fn from_raw(n: u8) -> State {
        if n == 0 {
            State::Active
        } else if n == 1 {
            State::Deactivated
        } else {
            State::Unknown(n)
        }
    }

    /// The raw wire code of this value.
    pub open spec fn raw(self) -> u8 {
        match self {
            State::Active => 0,
            State::Deactivated => 1,
            State::Unknown(n) => n,
        }
    }

    /// Well-formed: decoding this value's own code gives the value back.
    pub open spec fn wf(self) -> bool {
        Self::from_raw(self.raw()) == self
    }

    pub fn from_u8(n: u8) -> (r: State)
        ensures
            r == Self::from_raw(n),
    {
        match n {
            0 => State::Active,
            1 => State::Deactivated,
            _ => State::Unknown(n),
        }
    }

    pub fn to_u8(self) -> (r: u8)
        ensures
            r == self.raw(),
    {
        match self {
            State::Active => 0,
            State::Deactivated => 1,
            State::Unknown(n) => n,
        }
    }
}

impl Default for State {
    fn default() -> (r: Self)
        ensures
            r == State::Active,
    {
        State::Active
    }
}

/// Decoding is total and lossless: every raw code re-encodes to itself,
/// decoding always yields a well-formed value, and a well-formed value is
/// recovered from its own code.
pub proof fn lemma_state_codes(n: u8, e: State)
    ensures
        State::from_raw(n).raw() == n,
        State::from_raw(n).wf(),
        e.wf() ==> State::from_raw(e.raw()) == e,
{
}

#[derive(Clone, Copy, Debug, PartialEq, Eq, Structural)]
pub enum Tent {
    NotExtended,
    Extended,
    Unknown(u8),
}

impl Tent {
    /// The value that the raw code `n` decodes to.
    pub open spec fn from_raw(n: u8) -> Tent {
        if n == 0 {
            Tent::NotExtended
        } else if n == 1 {
            Tent::Extended
        } else {
            Tent::Unknown(n)
        }
    }

    /// The raw wire code of this value.
    pub open spec fn raw(self) -> u8 {
        match self {
            Tent::NotExtended => 0,
            Tent::Extended => 1,
            Tent::Unknown(n) => n,
        }
    }

    /// Well-formed: decoding this value's own code gives the value back.
    pub open spec fn wf(self) -> bool {
        Self::from_raw(self.raw()) == self
    }

    pub fn from_u8(n: u8) -> (r: Tent)
        ensures
            r == Self::from_raw(n),
    {
        match n {
            0 => Tent::NotExtended,
            1 => Tent::Extended,
            _ => Tent::Unknown(n),
        }
    }

    pub fn to_u8(self) -> (r: u8)
        ensures
            r == self.raw(),
    {
        match self {
            Tent::NotExtended => 0,
            Tent::Extended => 1,
            Tent::Unknown(n) => n,
        }
    }
}

impl Default for Tent {
    fn default() -> (r: Self)
        ensures
            r == Tent::NotExtended,
    {
        Tent::NotExtended
    }
}

/// Decoding is total and lossless: every raw code re-encodes to itself,
/// decoding always yields a well-formed value, and a well-formed value is
/// recovered from its own code.
pub proof fn lemma_tent_codes(n: u8, e: Tent)
    ensures
        Tent::from_raw(n).raw() == n,
        Tent::from_raw(n).wf(),
        e.wf() ==> Tent::from_raw(e.raw()) == e,
{
}

#[derive(Clone, Copy, Debug, PartialEq, Eq, Structural)]
pub enum Ramp {
    Up,
    Down,
    Unknown(u8),
}

impl Ramp {
    /// The value that the raw code `n` decodes to.
    pub open spec fn from_raw(n: u8) -> Ramp {
        if n == 0 {
            Ramp::Up
        } else if n == 1 {
            Ramp::Down
        } else {
            Ramp::Unknown(n)
        }
    }

    /// The raw wire code of this value.
    pub open spec fn raw(self) -> u8 {
        match self {
            Ramp::Up => 0,
            Ramp::Down => 1,
            Ramp::Unknown(n) => n,
        }
    }

    /// Well-formed: decoding this value's own code gives the value back.
    pub open spec fn wf(self) -> bool {
        Self::from_raw(self.raw()) == self
    }

    pub fn from_u8(n: u8) -> (r: Ramp)
        ensures
            r == Self::from_raw(n),
    {
        match n {
            0 => Ramp::Up,
            1 => Ramp::Down,
            _ => Ramp::Unknown(n),
        }
    }

    pub fn to_u8(self) -> (r: u8)
        ensures
            r == self.raw(),
    {
        match self {
            Ramp::Up => 0,
            Ramp::Down => 1,
            Ramp::Unknown(n) => n,
        }
    }
}

impl Default for Ramp {
    fn default() -> (r: Self)
        ensures
            r == Ramp::Up,
    {
        Ramp::Up
    }
}

/// Decoding is total and lossless: every raw code re-encodes to itself,
/// decoding always yields a well-formed value, and a well-formed value is
/// recovered from its own code.
pub proof fn lemma_ramp_codes(n: u8, e: Ramp)
    ensures
        Ramp::from_raw(n).raw() == n,
        Ramp::from_raw(n).wf(),
        e.wf() ==> Ramp::from_raw(e.raw()) == e,
{
}

#[derive(Clone, Copy, Debug, PartialEq, Eq, Structural)]
pub enum Afterburner {
    NotOn,
    On,
    Unknown(u8),
}

impl Afterburner {
    /// The value that the raw code `n` decodes to.
    pub open spec fn from_raw(n: u8) -> Afterburner {
        if n == 0 {
            Afterburner::NotOn
        } else if n == 1 {
            Afterburner::On
        } else {
            Afterburner::Unknown(n)
        }
    }

    /// The raw wire code of this value.
    pub open spec fn raw(self) -> u8 {
        match self {
            Afterburner::NotOn => 0,
            Afterburner::On => 1,
            Afterburner::Unknown(n) => n,
        }
    }

    /// Well-formed: decoding this value's own code gives the value back.
    pub open spec fn wf(self) -> bool {
        Self::from_raw(self.raw()) == self
    }

    pub fn from_u8(n: u8) -> (r: Afterburner)
        ensures
            r == Self::from_raw(n),
    {
        match n {
            0 => Afterburner::NotOn,
            1 => Afterburner::On,
            _ => Afterburner::Unknown(n),
        }
    }

    pub fn to_u8(self) -> (r: u8)
        ensures
            r == self.raw(),
    {
        match self {
            Afterburner::NotOn => 0,
            Afterburner::On => 1,
            Afterburner::Unknown(n) => n,
        }
    }
}

impl Default for Afterburner {
    fn default() -> (r: Self)
        ensures
            r == Afterburner::NotOn,
    {
        Afterburner::NotOn
    }
}

/// Decoding is total and lossless: every raw code re-encodes to itself,
/// decoding always yields a well-formed value, and a well-formed value is
/// recovered from its own code.
pub proof fn lemma_afterburner_codes(n: u8, e: Afterburner)
    ensures
        Afterburner::from_raw(n).raw() == n,
        Afterburner::from_raw(n).wf(),
        e.wf() ==> Afterburner::from_raw(e.raw()) == e,
{
}

#[derive(Clone, Copy, Debug, PartialEq, Eq, Structural)]
pub enum LaunchFlash {
    NotPresent,
    Present,
    Unknown(u8),
}

impl LaunchFlash {
    /// The value that the raw code `n` decodes to.
    pub open spec fn from_raw(n: u8) -> LaunchFlash {
        if n == 0 {
            LaunchFlash::NotPresent
        } else if n == 1 {
            LaunchFlash::Present
        } else {
            LaunchFlash::Unknown(n)
        }
    }

    /// The raw wire code of this value.
    pub open spec fn raw(self) -> u8 {
        match self {
            LaunchFlash::NotPresent => 0,
            LaunchFlash::Present => 1,
            LaunchFlash::Unknown(n) => n,
        }
    }

    /// Well-formed: decoding this value's own code gives the value back.
    pub open spec fn wf(self) -> bool {
        Self::from_raw(self.raw()) == self
    }

    pub fn from_u8(n: u8) -> (r: LaunchFlash)
        ensures
            r == Self::from_raw(n),
    {
        match n {
            0 => LaunchFlash::NotPresent,
            1 => LaunchFlash::Present,
            _ => LaunchFlash::Unknown(n),
        }
    }

    pub fn to_u8(self) -> (r: u8)
        ensures
            r == self.raw(),
    {
        match self {
            LaunchFlash::NotPresent => 0,
            LaunchFlash::Present => 1,
            LaunchFlash::Unknown(n) => n,
        }
    }
}

impl Default for LaunchFlash {
    fn default() -> (r: Self)
        ensures
            r == LaunchFlash::NotPresent,
    {
        LaunchFlash::NotPresent
    }
}

/// Decoding is total and lossless: every raw code re-encodes to itself,
/// decoding always yields a well-formed value, and a well-formed value is
/// recovered from its own code.
pub proof fn lemma_launch_flash_codes(n: u8, e: LaunchFlash)
    ensures
        LaunchFlash::from_raw(n).raw() == n,
        LaunchFlash::from_raw(n).wf(),
        e.wf() ==> LaunchFlash::from_raw(e.raw()) == e,
{
}

#[derive(Clone, Copy, Debug, PartialEq, Eq, Structural)]
pub enum LifeFormsState {
    Null,
    UprightStandingStill,
    UprightWalking,
    UprightRunning,
    Kneeling,
    Prone,
    Crawling,
    Swimming,
    Parachuting,
    Jumping,
    Unknown(u8),
}

impl LifeFormsState {
    /// The value that the raw code `n` decodes to.
    pub open spec fn from_raw(n: u8) -> LifeFormsState {
        if n == 0 {
            LifeFormsState::Null
        } else if n == 1 {
            LifeFormsState::UprightStandingStill
        } else if n == 2 {
            LifeFormsState::UprightWalking
        } else if n == 3 {
            LifeFormsState::UprightRunning
        } else if n == 4 {
            LifeFormsState::Kneeling
        } else if n == 5 {
            LifeFormsState::Prone
        } else if n == 6 {
            LifeFormsState::Crawling
        } else if n == 7 {
            LifeFormsState::Swimming
        } else if n == 8 {
            LifeFormsState::Parachuting
        } else if n == 9 {
            LifeFormsState::Jumping
        } else {
            LifeFormsState::Unknown(n)
        }
    }

    /// The raw wire code of this value.
    pub open spec fn raw(self) -> u8 {
        match self {
            LifeFormsState::Null => 0,
            LifeFormsState::UprightStandingStill => 1,
            LifeFormsState::UprightWalking => 2,
            LifeFormsState::UprightRunning => 3,
            LifeFormsState::Kneeling => 4,
            LifeFormsState::Prone => 5,
            LifeFormsState::Crawling => 6,
            LifeFormsState::Swimming => 7,
            LifeFormsState::Parachuting => 8,
            LifeFormsState::Jumping => 9,
            LifeFormsState::Unknown(n) => n,
        }
    }

    /// Well-formed: decoding this value's own code gives the value back.
    pub open spec fn wf(self) -> bool {
        Self::from_raw(self.raw()) == self
    }

    pub fn from_u8(n: u8) -> (r: LifeFormsState)
        ensures
            r == Self::from_raw(n),
    {
        match n {
            0 => LifeFormsState::Null,
            1 => LifeFormsState::UprightStandingStill,
            2 => LifeFormsState::UprightWalking,
            3 => LifeFormsState::UprightRunning,
            4 => LifeFormsState::Kneeling,
            5 => LifeFormsState::Prone,
            6 => LifeFormsState::Crawling,
            7 => LifeFormsState::Swimming,
            8 => LifeFormsState::Parachuting,
            9 => LifeFormsState::Jumping,
            _ => LifeFormsState::Unknown(n),
        }
    }

    pub fn to_u8(self) -> (r: u8)
        ensures
            r == self.raw(),
    {
        match self {
            LifeFormsState::Null => 0,
            LifeFormsState::UprightStandingStill => 1,
            LifeFormsState::UprightWalking => 2,
            LifeFormsState::UprightRunning => 3,
            LifeFormsState::Kneeling => 4,
            LifeFormsState::Prone => 5,
            LifeFormsState::Crawling => 6,
            LifeFormsState::Swimming => 7,
            LifeFormsState::Parachuting => 8,
            LifeFormsState::Jumping => 9,
            LifeFormsState::Unknown(n) => n,
        }
    }
}

impl Default for LifeFormsState {
    fn default() -> (r: Self)
        ensures
            r == LifeFormsState::UprightStandingStill,
    {
        LifeFormsState::UprightStandingStill
    }
}

/// Decoding is total and lossless: every raw code re-encodes to itself,
/// decoding always yields a well-formed value, and a well-formed value is
/// recovered from its own code.
pub proof fn lemma_life_forms_state_codes(n: u8, e: LifeFormsState)
    ensures
        LifeFormsState::from_raw(n).raw() == n,
        LifeFormsState::from_raw(n).wf(),
        e.wf() ==> LifeFormsState::from_raw(e.raw()) == e,
{
}

#[derive(Clone, Copy, Debug, PartialEq, Eq, Structural)]
pub enum ActivityState {
    Active,
    Deactivated,
    Unknown(u8),
}

impl ActivityState {
    /// The value that the raw code `n` decodes to.
    pub open spec fn from_raw(n: u8) -> ActivityState {
        if n == 0 {
            ActivityState::Active
        } else if n == 1 {
            ActivityState::Deactivated
        } else {
            ActivityState::Unknown(n)
        }
    }

    /// The raw wire code of this value.
    pub open spec fn raw(self) -> u8 {
        match self {
            ActivityState::Active => 0,
            ActivityState::Deactivated => 1,
            ActivityState::Unknown(n) => n,
        }
    }

    /// Well-formed: decoding this value's own code gives the value back.
    pub open spec fn wf(self) -> bool {
        Self::from_raw(self.raw()) == self
    }

    pub fn from_u8(n: u8) -> (r: ActivityState)
        ensures
            r == Self::from_raw(n),
    {
        match n {
            0 => ActivityState::Active,
            1 => ActivityState::Deactivated,
            _ => ActivityState::Unknown(n),
        }
    }

    pub fn to_u8(self) -> (r: u8)
        ensures
            r == self.raw(),
    {
        match self {
            ActivityState::Active => 0,
            ActivityState::Deactivated => 1,
            ActivityState::Unknown(n) => n,
        }
    }
}

impl Default for ActivityState {
    fn default() -> (r: Self)
        ensures
            r == ActivityState::Active,
    {
        ActivityState::Active
    }
}

/// Decoding is total and lossless: every raw code re-encodes to itself,
/// decoding always yields a well-formed value, and a well-formed value is
/// recovered from its own code.
pub proof fn lemma_activity_state_codes(n: u8, e: ActivityState)
    ensures
        ActivityState::from_raw(n).raw() == n,
        ActivityState::from_raw(n).wf(),
        e.wf() ==> ActivityState::from_raw(e.raw()) == e,
{
}

#[derive(Clone, Copy, Debug, PartialEq, Eq, Structural)]
pub enum Weapon {
    NotPresent,
    Stowed,
    Deployed,
    FiringPosition,
    Unknown(u8),
}

impl Weapon {
    /// The value that the raw code `n` decodes to.
    pub open spec fn from_raw(n: u8) -> Weapon {
        if n == 0 {
            Weapon::NotPresent
        } else if n == 1 {
            Weapon::Stowed
        } else if n == 2 {
            Weapon::Deployed
        } else if n == 3 {
            Weapon::FiringPosition
        } else {
            Weapon::Unknown(n)
        }
    }

    /// The raw wire code of this value.
    pub open spec fn raw(self) -> u8 {
        match self {
            Weapon::NotPresent => 0,
            Weapon::Stowed => 1,
            Weapon::Deployed => 2,
            Weapon::FiringPosition => 3,
            Weapon::Unknown(n) => n,
        }
    }

    /// Well-formed: decoding this value's own code gives the value back.
    pub open spec fn wf(self) -> bool {
        Self::from_raw(self.raw()) == self
    }

    pub fn from_u8(n: u8) -> (r: Weapon)
        ensures
            r == Self::from_raw(n),
    {
        match n {
            0 => Weapon::NotPresent,
            1 => Weapon::Stowed,
            2 => Weapon::Deployed,
            3 => Weapon::FiringPosition,
            _ => Weapon::Unknown(n),
        }
    }

    pub fn to_u8(self) -> (r: u8)
        ensures
            r == self.raw(),
    {
        match self {
            Weapon::NotPresent => 0,
            Weapon::Stowed => 1,
            Weapon::Deployed => 2,
            Weapon::FiringPosition => 3,
            Weapon::Unknown(n) => n,
        }
    }
}

impl Default for Weapon {
    fn default() -> (r: Self)
        ensures
            r == Weapon::NotPresent,
    {
        Weapon::NotPresent
    }
}

/// Decoding is total and lossless: every raw code re-encodes to itself,
/// decoding always yields a well-formed value, and a well-formed value is
/// recovered from its own code.
pub proof fn lemma_weapon_codes(n: u8, e: Weapon)
    ensures
        Weapon::from_raw(n).raw() == n,
        Weapon::from_raw(n).wf(),
        e.wf() ==> Weapon::from_raw(e.raw()) == e,
{
}

#[derive(Clone, Copy, Debug, PartialEq, Eq, Structural)]
pub enum Density {
    Clear,
    Hazy,
    Dense,
    VeryDense,
    Opaque,
    Unknown(u8),
}

impl Density {
    /// The value that the raw code `n` decodes to.
    pub open spec fn from_raw(n: u8) -> Density {
        if n == 0 {
            Density::Clear
        } else if n == 1 {
            Density::Hazy
        } else if n == 2 {
            Density::Dense
        } else if n == 3 {
            Density::VeryDense
        } else if n == 4 {
            Density::Opaque
        } else {
            Density::Unknown(n)
        }
    }

    /// The raw wire code of this value.
    pub open spec fn raw(self) -> u8 {
        match self {
            Density::Clear => 0,
            Density::Hazy => 1,
            Density::Dense => 2,
            Density::VeryDense => 3,
            Density::Opaque => 4,
            Density::Unknown(n) => n,
        }
    }

    /// Well-formed: decoding this value's own code gives the value back.
    pub open spec fn wf(self) -> bool {
        Self::from_raw(self.raw()) == self
    }

    pub fn from_u8(n: u8) -> (r: Density)
        ensures
            r == Self::from_raw(n),
    {
        match n {
            0 => Density::Clear,
            1 => Density::Hazy,
            2 => Density::Dense,
            3 => Density::VeryDense,
            4 => Density::Opaque,
            _ => Density::Unknown(n),
        }
    }

    pub fn to_u8(self) -> (r: u8)
        ensures
            r == self.raw(),
    {
        match self {
            Density::Clear => 0,
            Density::Hazy => 1,
            Density::Dense => 2,
            Density::VeryDense => 3,
            Density::Opaque => 4,
            Density::Unknown(n) => n,
        }
    }
}

impl Default for Density {
    fn default() -> (r: Self)
        ensures
            r == Density::Clear,
    {
        Density::Clear
    }
}

/// Decoding is total and lossless: every raw code re-encodes to itself,
/// decoding always yields a well-formed value, and a well-formed value is
/// recovered from its own code.
pub proof fn lemma_density_codes(n: u8, e: Density)
    ensures
        Density::from_raw(n).raw() == n,
        Density::from_raw(n).wf(),
        e.wf() ==> Density::from_raw(e.raw()) == e,
{
}

#[derive(Clone, Copy, Debug, PartialEq, Eq, Structural)]
pub enum DrAlgorithm {
    Other,
    Static,
    DrmFPW,
    DrmRPW,
    DrmRVW,
    DrmFVW,
    DrmFPB,
    DrmRPB,
    DrmRVB,
    DrmFVB,
    Unknown(u8),
}

impl DrAlgorithm {
    /// The value that the raw code `n` decodes to.
    pub open spec fn from_raw(n: u8) -> DrAlgorithm {
        if n == 0 {
            DrAlgorithm::Other
        } else if n == 1 {
            DrAlgorithm::Static
        } else if n == 2 {
            DrAlgorithm::DrmFPW
        } else if n == 3 {
            DrAlgorithm::DrmRPW
        } else if n == 4 {
            DrAlgorithm::DrmRVW
        } else if n == 5 {
            DrAlgorithm::DrmFVW
        } else if n == 6 {
            DrAlgorithm::DrmFPB
        } else if n == 7 {
            DrAlgorithm::DrmRPB
        } else if n == 8 {
            DrAlgorithm::DrmRVB
        } else if n == 9 {
            DrAlgorithm::DrmFVB
        } else {
            DrAlgorithm::Unknown(n)
        }
    }

    /// The raw wire code of this value.
    pub open spec fn raw(self) -> u8 {
        match self {
            DrAlgorithm::Other => 0,
            DrAlgorithm::Static => 1,
            DrAlgorithm::DrmFPW => 2,
            DrAlgorithm::DrmRPW => 3,
            DrAlgorithm::DrmRVW => 4,
            DrAlgorithm::DrmFVW => 5,
            DrAlgorithm::DrmFPB => 6,
            DrAlgorithm::DrmRPB => 7,
            DrAlgorithm::DrmRVB => 8,
            DrAlgorithm::DrmFVB => 9,
            DrAlgorithm::Unknown(n) => n,
        }
    }

    /// Well-formed: decoding this value's own code gives the value back.
    pub open spec fn wf(self) -> bool {
        Self::from_raw(self.raw()) == self
    }

    pub fn from_u8(n: u8) -> (r: DrAlgorithm)
        ensures
            r == Self::from_raw(n),
    {
        match n {
            0 => DrAlgorithm::Other,
            1 => DrAlgorithm::Static,
            2 => DrAlgorithm::DrmFPW,
            3 => DrAlgorithm::DrmRPW,
            4 => DrAlgorithm::DrmRVW,
            5 => DrAlgorithm::DrmFVW,
            6 => DrAlgorithm::DrmFPB,
            7 => DrAlgorithm::DrmRPB,
            8 => DrAlgorithm::DrmRVB,
            9 => DrAlgorithm::DrmFVB,
            _ => DrAlgorithm::Unknown(n),
        }
    }

    pub fn to_u8(self) -> (r: u8)
        ensures
            r == self.raw(),
    {
        match self {
            DrAlgorithm::Other => 0,
            DrAlgorithm::Static => 1,
            DrAlgorithm::DrmFPW => 2,
            DrAlgorithm::DrmRPW => 3,
            DrAlgorithm::DrmRVW => 4,
            DrAlgorithm::DrmFVW => 5,
            DrAlgorithm::DrmFPB => 6,
            DrAlgorithm::DrmRPB => 7,
            DrAlgorithm::DrmRVB => 8,
            DrAlgorithm::DrmFVB => 9,
            DrAlgorithm::Unknown(n) => n,
        }
    }
}

impl Default for DrAlgorithm {
    fn default() -> (r: Self)
        ensures
            r == DrAlgorithm::Other,
    {
        DrAlgorithm::Other
    }
}

/// Decoding is total and lossless: every raw code re-encodes to itself,
/// decoding always yields a well-formed value, and a well-formed value is
/// recovered from its own code.
pub proof fn lemma_dr_algorithm_codes(n: u8, e: DrAlgorithm)
    ensures
        DrAlgorithm::from_raw(n).raw() == n,
        DrAlgorithm::from_raw(n).wf(),
        e.wf() ==> DrAlgorithm::from_raw(e.raw()) == e,
{
}

#[derive(Clone, Copy, Debug, PartialEq, Eq, Structural)]
pub enum ApTypeDesignator {
    Articulated,
    Attached,
    Unknown(u8),
}

impl ApTypeDesignator {
    /// The value that the raw code `n` decodes to.
    pub open spec fn from_raw(n: u8) -> ApTypeDesignator {
        if n == 0 {
            ApTypeDesignator::Articulated
        } else if n == 1 {
            ApTypeDesignator::Attached
        } else {
            ApTypeDesignator::Unknown(n)
        }
    }

    /// The raw wire code of this value.
    pub open spec fn raw(self) -> u8 {
        match self {
            ApTypeDesignator::Articulated => 0,
            ApTypeDesignator::Attached => 1,
            ApTypeDesignator::Unknown(n) => n,
        }
    }

    /// Well-formed: decoding this value's own code gives the value back.
    pub open spec fn wf(self) -> bool {
        Self::from_raw(self.raw()) == self
    }

    pub fn from_u8(n: u8) -> (r: ApTypeDesignator)
        ensures
            r == Self::from_raw(n),
    {
        match n {
            0 => ApTypeDesignator::Articulated,
            1 => ApTypeDesignator::Attached,
            _ => ApTypeDesignator::Unknown(n),
        }
    }

    pub fn to_u8(self) -> (r: u8)
        ensures
            r == self.raw(),
    {
        match self {
            ApTypeDesignator::Articulated => 0,
            ApTypeDesignator::Attached => 1,
            ApTypeDesignator::Unknown(n) => n,
        }
    }
}

impl Default for ApTypeDesignator {
    fn default() -> (r: Self)
        ensures
            r == ApTypeDesignator::Articulated,
    {
        ApTypeDesignator::Articulated
    }
}

/// Decoding is total and lossless: every raw code re-encodes to itself,
/// decoding always yields a well-formed value, and a well-formed value is
/// recovered from its own code.
pub proof fn lemma_ap_type_designator_codes(n: u8, e: ApTypeDesignator)
    ensures
        ApTypeDesignator::from_raw(n).raw() == n,
        ApTypeDesignator::from_raw(n).wf(),
        e.wf() ==> ApTypeDesignator::from_raw(e.raw()) == e,
{
}

#[derive(Clone, Copy, Debug, PartialEq, Eq, Structural)]
pub enum ArticulatedPartsTypeMetric {
    Position,
    PositionRate,
    Extension,
    ExtensionRate,
    X,
    XRate,
    Y,
    YRate,
    Z,
    ZRate,
    Azimuth,
    AzimuthRate,
    Elevation,
    ElevationRate,
    Rotation,
    RotationRate,
    Unknown(u32),
}

impl ArticulatedPartsTypeMetric {
    /// The value that the raw code `n` decodes to.
    pub open spec fn from_raw(n: u32) -> ArticulatedPartsTypeMetric {
        if n == 1 {
            ArticulatedPartsTypeMetric::Position
        } else if n == 2 {
            ArticulatedPartsTypeMetric::PositionRate
        } else if n == 3 {
            ArticulatedPartsTypeMetric::Extension
        } else if n == 4 {
            ArticulatedPartsTypeMetric::ExtensionRate
        } else if n == 5 {
            ArticulatedPartsTypeMetric::X
        } else if n == 6 {
            ArticulatedPartsTypeMetric::XRate
        } else if n == 7 {
            ArticulatedPartsTypeMetric::Y
        } else if n == 8 {
            ArticulatedPartsTypeMetric::YRate
        } else if n == 9 {
            ArticulatedPartsTypeMetric::Z
        } else if n == 10 {
            ArticulatedPartsTypeMetric::ZRate
        } else if n == 11 {
            ArticulatedPartsTypeMetric::Azimuth
        } else if n == 12 {
            ArticulatedPartsTypeMetric::AzimuthRate
        } else if n == 13 {
            ArticulatedPartsTypeMetric::Elevation
        } else if n == 14 {
            ArticulatedPartsTypeMetric::ElevationRate
        } else if n == 15 {
            ArticulatedPartsTypeMetric::Rotation
        } else if n == 16 {
            ArticulatedPartsTypeMetric::RotationRate
        } else {
            ArticulatedPartsTypeMetric::Unknown(n)
        }
    }

    /// The raw wire code of this value.
    pub open spec fn raw(self) -> u32 {
        match self {
            ArticulatedPartsTypeMetric::Position => 1,
            ArticulatedPartsTypeMetric::PositionRate => 2,
            ArticulatedPartsTypeMetric::Extension => 3,
            ArticulatedPartsTypeMetric::ExtensionRate => 4,
            ArticulatedPartsTypeMetric::X => 5,
            ArticulatedPartsTypeMetric::XRate => 6,
            ArticulatedPartsTypeMetric::Y => 7,
            ArticulatedPartsTypeMetric::YRate => 8,
            ArticulatedPartsTypeMetric::Z => 9,
            ArticulatedPartsTypeMetric::ZRate => 10,
            ArticulatedPartsTypeMetric::Azimuth => 11,
            ArticulatedPartsTypeMetric::AzimuthRate => 12,
            ArticulatedPartsTypeMetric::Elevation => 13,
            ArticulatedPartsTypeMetric::ElevationRate => 14,
            ArticulatedPartsTypeMetric::Rotation => 15,
            ArticulatedPartsTypeMetric::RotationRate => 16,
            ArticulatedPartsTypeMetric::Unknown(n) => n,
        }
    }

    /// Well-formed: decoding this value's own code gives the value back.
    pub open spec fn wf(self) -> bool {
        Self::from_raw(self.raw()) == self
    }

    pub fn from_u32(n: u32) -> (r: ArticulatedPartsTypeMetric)
        ensures
            r == Self::from_raw(n),
    {
        match n {
            1 => ArticulatedPartsTypeMetric::Position,
            2 => ArticulatedPartsTypeMetric::PositionRate,
            3 => ArticulatedPartsTypeMetric::Extension,
            4 => ArticulatedPartsTypeMetric::ExtensionRate,
            5 => ArticulatedPartsTypeMetric::X,
            6 => ArticulatedPartsTypeMetric::XRate,
            7 => ArticulatedPartsTypeMetric::Y,
            8 => ArticulatedPartsTypeMetric::YRate,
            9 => ArticulatedPartsTypeMetric::Z,
            10 => ArticulatedPartsTypeMetric::ZRate,
            11 => ArticulatedPartsTypeMetric::Azimuth,
            12 => ArticulatedPartsTypeMetric::AzimuthRate,
            13 => ArticulatedPartsTypeMetric::Elevation,
            14 => ArticulatedPartsTypeMetric::ElevationRate,
            15 => ArticulatedPartsTypeMetric::Rotation,
            16 => ArticulatedPartsTypeMetric::RotationRate,
            _ => ArticulatedPartsTypeMetric::Unknown(n),
        }
    }

    pub fn to_u32(self) -> (r: u32)
        ensures
            r == self.raw(),
    {
        match self {
            ArticulatedPartsTypeMetric::Position => 1,
            ArticulatedPartsTypeMetric::PositionRate => 2,
            ArticulatedPartsTypeMetric::Extension => 3,
            ArticulatedPartsTypeMetric::ExtensionRate => 4,
            ArticulatedPartsTypeMetric::X => 5,
            ArticulatedPartsTypeMetric::XRate => 6,
            ArticulatedPartsTypeMetric::Y => 7,
            ArticulatedPartsTypeMetric::YRate => 8,
            ArticulatedPartsTypeMetric::Z => 9,
            ArticulatedPartsTypeMetric::ZRate => 10,
            ArticulatedPartsTypeMetric::Azimuth => 11,
            ArticulatedPartsTypeMetric::AzimuthRate => 12,
            ArticulatedPartsTypeMetric::Elevation => 13,
            ArticulatedPartsTypeMetric::ElevationRate => 14,
            ArticulatedPartsTypeMetric::Rotation => 15,
            ArticulatedPartsTypeMetric::RotationRate => 16,
            ArticulatedPartsTypeMetric::Unknown(n) => n,
        }
    }
}

/// Decoding is total and lossless: every raw code re-encodes to itself,
/// decoding always yields a well-formed value, and a well-formed value is
/// recovered from its own code.
pub proof fn lemma_articulated_parts_type_metric_codes(n: u32, e: ArticulatedPartsTypeMetric)
    ensures
        ArticulatedPartsTypeMetric::from_raw(n).raw() == n,
        ArticulatedPartsTypeMetric::from_raw(n).wf(),
        e.wf() ==> ArticulatedPartsTypeMetric::from_raw(e.raw()) == e,
{
}

#[derive(Clone, Copy, Debug, PartialEq, Eq, Structural)]
pub enum ArticulatedPartsTypeClass {
    Rudder,
    LeftFlap,
    RightFlap,
    LeftAileron,
    RightAileron,
    HelicopterMainRotor,
    HelicopterTailRotor,
    PrimaryTurretNumber1,
    PrimaryGunNumber1,
    Unknown(u32),
}

impl ArticulatedPartsTypeClass {
    /// The value that the raw code `n` decodes to.
    pub open spec fn from_raw(n: u32) -> ArticulatedPartsTypeClass {
        if n == 1024 {
            ArticulatedPartsTypeClass::Rudder
        } else if n == 1056 {
            ArticulatedPartsTypeClass::LeftFlap
        } else if n == 1088 {
            ArticulatedPartsTypeClass::RightFlap
        } else if n == 1120 {
            ArticulatedPartsTypeClass::LeftAileron
        } else if n == 1152 {
            ArticulatedPartsTypeClass::RightAileron
        } else if n == 4096 {
            ArticulatedPartsTypeClass::HelicopterMainRotor
        } else if n == 4128 {
            ArticulatedPartsTypeClass::HelicopterTailRotor
        } else if n == 4416 {
            ArticulatedPartsTypeClass::PrimaryTurretNumber1
        } else if n == 4736 {
            ArticulatedPartsTypeClass::PrimaryGunNumber1
        } else {
            ArticulatedPartsTypeClass::Unknown(n)
        }
    }

    /// The raw wire code of this value.
    pub open spec fn raw(self) -> u32 {
        match self {
            ArticulatedPartsTypeClass::Rudder => 1024,
            ArticulatedPartsTypeClass::LeftFlap => 1056,
            ArticulatedPartsTypeClass::RightFlap => 1088,
            ArticulatedPartsTypeClass::LeftAileron => 1120,
            ArticulatedPartsTypeClass::RightAileron => 1152,
            ArticulatedPartsTypeClass::HelicopterMainRotor => 4096,
            ArticulatedPartsTypeClass::HelicopterTailRotor => 4128,
            ArticulatedPartsTypeClass::PrimaryTurretNumber1 => 4416,
            ArticulatedPartsTypeClass::PrimaryGunNumber1 => 4736,
            ArticulatedPartsTypeClass::Unknown(n) => n,
        }
    }

    /// Well-formed: decoding this value's own code gives the value back.
    pub open spec fn wf(self) -> bool {
        Self::from_raw(self.raw()) == self
    }

    pub fn from_u32(n: u32) -> (r: ArticulatedPartsTypeClass)
        ensures
            r == Self::from_raw(n),
    {
        match n {
            1024 => ArticulatedPartsTypeClass::Rudder,
            1056 => ArticulatedPartsTypeClass::LeftFlap,
            1088 => ArticulatedPartsTypeClass::RightFlap,
            1120 => ArticulatedPartsTypeClass::LeftAileron,
            1152 => ArticulatedPartsTypeClass::RightAileron,
            4096 => ArticulatedPartsTypeClass::HelicopterMainRotor,
            4128 => ArticulatedPartsTypeClass::HelicopterTailRotor,
            4416 => ArticulatedPartsTypeClass::PrimaryTurretNumber1,
            4736 => ArticulatedPartsTypeClass::PrimaryGunNumber1,
            _ => ArticulatedPartsTypeClass::Unknown(n),
        }
    }

    pub fn to_u32(self) -> (r: u32)
        ensures
            r == self.raw(),
    {
        match self {
            ArticulatedPartsTypeClass::Rudder => 1024,
            ArticulatedPartsTypeClass::LeftFlap => 1056,
            ArticulatedPartsTypeClass::RightFlap => 1088,
            ArticulatedPartsTypeClass::LeftAileron => 1120,
            ArticulatedPartsTypeClass::RightAileron => 1152,
            ArticulatedPartsTypeClass::HelicopterMainRotor => 4096,
            ArticulatedPartsTypeClass::HelicopterTailRotor => 4128,
            ArticulatedPartsTypeClass::PrimaryTurretNumber1 => 4416,
            ArticulatedPartsTypeClass::PrimaryGunNumber1 => 4736,
            ArticulatedPartsTypeClass::Unknown(n) => n,
        }
    }
}

/// Decoding is total and lossless: every raw code re-encodes to itself,
/// decoding always yields a well-formed value, and a well-formed value is
/// recovered from its own code.
pub proof fn lemma_articulated_parts_type_class_codes(n: u32, e: ArticulatedPartsTypeClass)
    ensures
        ArticulatedPartsTypeClass::from_raw(n).raw() == n,
        ArticulatedPartsTypeClass::from_raw(n).wf(),
        e.wf() ==> ArticulatedPartsTypeClass::from_raw(e.raw()) == e,
{
}

} // verus!
