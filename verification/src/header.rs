//! The 12-byte PDU header. Under protocol version 6 the last two bytes are
//! padding; under version 7 byte 10 carries the `PduStatus` bitfield, whose
//! field layout is selected by the PDU type being carried, and byte 11 is
//! padding.

use vstd::prelude::*;
use crate::bytes::{
    bytes_at, dec_u16, dec_u32, enc_u16, enc_u32, lemma_bytes_at_split, lemma_dec_enc_u16,
    lemma_dec_enc_u32, read_u16, read_u32, write_u16, write_u32,
};
use crate::enumerations::{
    CoupledExtensionIndicator, DetonationTypeIndicator, FireTypeIndicator,
    IntercomAttachedIndicator, IffSimulationMode, LvcIndicator, PduType, ProtocolFamily,
    ProtocolVersion, RadioAttachedIndicator, TransferredEntityIndicator,
};
use crate::errors::DisError;

verus! {

pub const HEADER_LEN: usize = 12;

// ---------------------------------------------------------------------------
// PduStatus
// ---------------------------------------------------------------------------

/// The version-7 PDU status byte, decoded: each indicator is present exactly
/// when the PDU type being carried defines it.
#[derive(Clone, Copy, Debug, PartialEq, Eq, Structural, Default)]
pub struct PduStatus {
    pub transferred_entity_indicator: Option<TransferredEntityIndicator>,
    pub lvc_indicator: Option<LvcIndicator>,
    pub coupled_extension_indicator: Option<CoupledExtensionIndicator>,
    pub fire_type_indicator: Option<FireTypeIndicator>,
    pub detonation_type_indicator: Option<DetonationTypeIndicator>,
    pub radio_attached_indicator: Option<RadioAttachedIndicator>,
    pub intercom_attached_indicator: Option<IntercomAttachedIndicator>,
    pub iff_simulation_mode: Option<IffSimulationMode>,
}

/// Bit 0: present for Entity State and Electromagnetic Emission PDUs.
pub open spec fn tei_applies(pt: PduType) -> bool {
    pt == PduType::EntityState || pt == PduType::ElectromagneticEmission
}

/// Bits 1-2: present for every PDU type.
pub open spec fn lvc_applies(pt: PduType) -> bool {
    true
}

/// Bit 3: present for every PDU type.
pub open spec fn cei_applies(pt: PduType) -> bool {
    true
}

/// Bit 4: present for Fire and Detonation PDUs.
pub open spec fn fti_applies(pt: PduType) -> bool {
    pt == PduType::Fire || pt == PduType::Detonation
}

/// Bit 5: present for Detonation PDUs.
pub open spec fn dti_applies(pt: PduType) -> bool {
    pt == PduType::Detonation
}

/// Bit 5: present for Transmitter, Signal and Receiver PDUs.
pub open spec fn rai_applies(pt: PduType) -> bool {
    pt == PduType::Transmitter || pt == PduType::Signal || pt == PduType::Receiver
}

/// Bit 4: present for the intercom family, which this codec carries as raw
/// bodies; no named PDU type selects it.
pub open spec fn iai_applies(pt: PduType) -> bool {
    pt == PduType::Unknown(31u8) || pt == PduType::Unknown(32u8)
}

/// Bit 4: present for IFF PDUs.
pub open spec fn ism_applies(pt: PduType) -> bool {
    pt == PduType::IFF
}

impl PduStatus {
    /// Exactly the fields that the PDU type defines are present, and each
    /// carried code fits its bit width.
    pub open spec fn wf(self, pt: PduType) -> bool {
        &&& (self.transferred_entity_indicator is Some <==> tei_applies(pt))
        &&& (self.lvc_indicator is Some <==> lvc_applies(pt))
        &&& (self.coupled_extension_indicator is Some <==> cei_applies(pt))
        &&& (self.fire_type_indicator is Some <==> fti_applies(pt))
        &&& (self.detonation_type_indicator is Some <==> dti_applies(pt))
        &&& (self.radio_attached_indicator is Some <==> rai_applies(pt))
        &&& (self.intercom_attached_indicator is Some <==> iai_applies(pt))
        &&& (self.iff_simulation_mode is Some <==> ism_applies(pt))
        &&& (self.transferred_entity_indicator matches Some(v) ==> v.wf() && v.raw() < 2)
        &&& (self.lvc_indicator matches Some(v) ==> v.wf() && v.raw() < 4)
        &&& (self.coupled_extension_indicator matches Some(v) ==> v.wf() && v.raw() < 2)
        &&& (self.fire_type_indicator matches Some(v) ==> v.wf() && v.raw() < 2)
        &&& (self.detonation_type_indicator matches Some(v) ==> v.wf() && v.raw() < 2)
        &&& (self.radio_attached_indicator matches Some(v) ==> v.wf() && v.raw() < 2)
        &&& (self.intercom_attached_indicator matches Some(v) ==> v.wf() && v.raw() < 2)
        &&& (self.iff_simulation_mode matches Some(v) ==> v.wf() && v.raw() < 2)
    }
}

/// The status byte: only the fields the PDU type defines are written, the
/// remaining bits are zero.
pub open spec fn enc_pdu_status(st: PduStatus, pt: PduType) -> u8 {
    (if tei_applies(pt) {
        match st.transferred_entity_indicator {
            Some(v) => v.raw(),
            None => 0,
        }
    } else {
        0
    }) | ((match st.lvc_indicator {
        Some(v) => v.raw(),
        None => 0,
    }) << 1) | ((match st.coupled_extension_indicator {
        Some(v) => v.raw(),
        None => 0,
    }) << 3) | ((if fti_applies(pt) {
        match st.fire_type_indicator {
            Some(v) => v.raw(),
            None => 0,
        }
    } else if iai_applies(pt) {
        match st.intercom_attached_indicator {
            Some(v) => v.raw(),
            None => 0,
        }
    } else if ism_applies(pt) {
        match st.iff_simulation_mode {
            Some(v) => v.raw(),
            None => 0,
        }
    } else {
        0
    }) << 4) | ((if dti_applies(pt) {
        match st.detonation_type_indicator {
            Some(v) => v.raw(),
            None => 0,
        }
    } else if rai_applies(pt) {
        match st.radio_attached_indicator {
            Some(v) => v.raw(),
            None => 0,
        }
    } else {
        0
    }) << 5)
}

/// Decodes the status byte; fields the PDU type does not define are absent.
pub open spec fn dec_pdu_status(b: u8, pt: PduType) -> PduStatus {
    PduStatus {
        transferred_entity_indicator: if tei_applies(pt) {
            Some(TransferredEntityIndicator::from_raw(b & 1))
        } else {
            None
        },
        lvc_indicator: if lvc_applies(pt) {
            Some(LvcIndicator::from_raw((b >> 1) & 3))
        } else {
            None
        },
        coupled_extension_indicator: if cei_applies(pt) {
            Some(CoupledExtensionIndicator::from_raw((b >> 3) & 1))
        } else {
            None
        },
        fire_type_indicator: if fti_applies(pt) {
            Some(FireTypeIndicator::from_raw((b >> 4) & 1))
        } else {
            None
        },
        detonation_type_indicator: if dti_applies(pt) {
            Some(DetonationTypeIndicator::from_raw((b >> 5) & 1))
        } else {
            None
        },
        radio_attached_indicator: if rai_applies(pt) {
            Some(RadioAttachedIndicator::from_raw((b >> 5) & 1))
        } else {
            None
        },
        intercom_attached_indicator: if iai_applies(pt) {
            Some(IntercomAttachedIndicator::from_raw((b >> 4) & 1))
        } else {
            None
        },
        iff_simulation_mode: if ism_applies(pt) {
            Some(IffSimulationMode::from_raw((b >> 4) & 1))
        } else {
            None
        },
    }
}

pub proof fn lemma_dec_pdu_status_wf(b: u8, pt: PduType)
    ensures
        dec_pdu_status(b, pt).wf(pt),
{
    assert((b & 1) < 2 && ((b >> 1) & 3) < 4 && ((b >> 3) & 1) < 2 && ((b >> 4) & 1) < 2 && ((b
        >> 5) & 1) < 2) by (bit_vector);
}

pub proof fn lemma_dec_enc_pdu_status(st: PduStatus, pt: PduType)
    requires
        st.wf(pt),
    ensures
        dec_pdu_status(enc_pdu_status(st, pt), pt) == st,
{
    let t = match st.transferred_entity_indicator {
        Some(v) => v.raw(),
        None => 0,
    };
    let l = match st.lvc_indicator {
        Some(v) => v.raw(),
        None => 0,
    };
    let c = match st.coupled_extension_indicator {
        Some(v) => v.raw(),
        None => 0,
    };
    let x4: u8 = if fti_applies(pt) {
        match st.fire_type_indicator {
            Some(v) => v.raw(),
            None => 0,
        }
    } else if iai_applies(pt) {
        match st.intercom_attached_indicator {
            Some(v) => v.raw(),
            None => 0,
        }
    } else if ism_applies(pt) {
        match st.iff_simulation_mode {
            Some(v) => v.raw(),
            None => 0,
        }
    } else {
        0
    };
    let x5: u8 = if dti_applies(pt) {
        match st.detonation_type_indicator {
            Some(v) => v.raw(),
            None => 0,
        }
    } else if rai_applies(pt) {
        match st.radio_attached_indicator {
            Some(v) => v.raw(),
            None => 0,
        }
    } else {
        0
    };
    let tb: u8 = if tei_applies(pt) {
        t
    } else {
        0
    };
    assert(enc_pdu_status(st, pt) == tb | (l << 1) | (c << 3) | (x4 << 4) | (x5 << 5));
    assert(tb < 2 && l < 4 && c < 2 && x4 < 2 && x5 < 2 ==> {
        let e = tb | (l << 1) | (c << 3) | (x4 << 4) | (x5 << 5);
        (e & 1) == tb && ((e >> 1) & 3) == l && ((e >> 3) & 1) == c && ((e >> 4) & 1) == x4 && ((e
            >> 5) & 1) == x5
    }) by (bit_vector);
}

/// Builds the decoded status struct from the raw byte for the given PDU type.
pub fn parse_pdu_status(b: u8, pt: PduType) -> (r: PduStatus)
    ensures
        r == dec_pdu_status(b, pt),
        r.wf(pt),
{
    proof {
        lemma_dec_pdu_status_wf(b, pt);
    }
    let tei = matches!(pt, PduType::EntityState | PduType::ElectromagneticEmission);
    let fti = matches!(pt, PduType::Fire | PduType::Detonation);
    let dti = matches!(pt, PduType::Detonation);
    let rai = matches!(pt, PduType::Transmitter | PduType::Signal | PduType::Receiver);
    let iai = matches!(pt, PduType::Unknown(31u8) | PduType::Unknown(32u8));
    let ism = matches!(pt, PduType::IFF);
    PduStatus {
        transferred_entity_indicator: if tei {
            Some(TransferredEntityIndicator::from_u8(b & 1))
        } else {
            None
        },
        lvc_indicator: Some(LvcIndicator::from_u8((b >> 1) & 3)),
        coupled_extension_indicator: Some(CoupledExtensionIndicator::from_u8((b >> 3) & 1)),
        fire_type_indicator: if fti {
            Some(FireTypeIndicator::from_u8((b >> 4) & 1))
        } else {
            None
        },
        detonation_type_indicator: if dti {
            Some(DetonationTypeIndicator::from_u8((b >> 5) & 1))
        } else {
            None
        },
        radio_attached_indicator: if rai {
            Some(RadioAttachedIndicator::from_u8((b >> 5) & 1))
        } else {
            None
        },
        intercom_attached_indicator: if iai {
            Some(IntercomAttachedIndicator::from_u8((b >> 4) & 1))
        } else {
            None
        },
        iff_simulation_mode: if ism {
            Some(IffSimulationMode::from_u8((b >> 4) & 1))
        } else {
            None
        },
    }
}

/// Packs the status struct back into its byte for the given PDU type.
pub fn write_pdu_status_byte(st: &PduStatus, pt: PduType) -> (r: u8)
    ensures
        r == enc_pdu_status(*st, pt),
{
    let tei = matches!(pt, PduType::EntityState | PduType::ElectromagneticEmission);
    let fti = matches!(pt, PduType::Fire | PduType::Detonation);
    let dti = matches!(pt, PduType::Detonation);
    let rai = matches!(pt, PduType::Transmitter | PduType::Signal | PduType::Receiver);
    let iai = matches!(pt, PduType::Unknown(31u8) | PduType::Unknown(32u8));
    let ism = matches!(pt, PduType::IFF);
    let t: u8 = if tei {
        match st.transferred_entity_indicator {
            Some(v) => v.to_u8(),
            None => 0,
        }
    } else {
        0
    };
    let l: u8 = match st.lvc_indicator {
        Some(v) => v.to_u8(),
        None => 0,
    };
    let c: u8 = match st.coupled_extension_indicator {
        Some(v) => v.to_u8(),
        None => 0,
    };
    let x4: u8 = if fti {
        match st.fire_type_indicator {
            Some(v) => v.to_u8(),
            None => 0,
        }
    } else if iai {
        match st.intercom_attached_indicator {
            Some(v) => v.to_u8(),
            None => 0,
        }
    } else if ism {
        match st.iff_simulation_mode {
            Some(v) => v.to_u8(),
            None => 0,
        }
    } else {
        0
    };
    let x5: u8 = if dti {
        match st.detonation_type_indicator {
            Some(v) => v.to_u8(),
            None => 0,
        }
    } else if rai {
        match st.radio_attached_indicator {
            Some(v) => v.to_u8(),
            None => 0,
        }
    } else {
        0
    };
    t | (l << 1) | (c << 3) | (x4 << 4) | (x5 << 5)
}

// ---------------------------------------------------------------------------
// PduHeader
// ---------------------------------------------------------------------------

/// The 12-byte header that opens every PDU. `pdu_length` counts the whole PDU
/// in bytes, padding included. Under version 7 `pdu_status` is present and the
/// `padding` field keeps only the final byte.
#[derive(Clone, Copy, Debug, PartialEq, Eq, Structural)]
pub struct PduHeader {
    pub protocol_version: ProtocolVersion,
    pub exercise_id: u8,
    pub pdu_type: PduType,
    pub protocol_family: ProtocolFamily,
    pub time_stamp: u32,
    pub pdu_length: u16,
    pub pdu_status: Option<PduStatus>,
    pub padding: u16,
}

impl PduHeader {
    /// The enumerated fields are well-formed, the status byte is present
    /// exactly under version 7 and fits the type being carried, and the
    /// padding fits the room the wire leaves for it.
    pub open spec fn wf(self) -> bool {
        &&& self.protocol_version.wf()
        &&& self.pdu_type.wf()
        &&& self.protocol_family.wf()
        &&& (self.pdu_status is Some <==> self.protocol_version == ProtocolVersion::V7)
        &&& (self.pdu_status matches Some(st) ==> st.wf(self.pdu_type) && self.padding < 256)
    }
}

pub open spec fn enc_header(h: PduHeader) -> Seq<u8> {
    seq![h.protocol_version.raw(), h.exercise_id, h.pdu_type.raw(), h.protocol_family.raw()]
        + enc_u32(h.time_stamp) + enc_u16(h.pdu_length) + (match h.pdu_status {
        Some(st) => seq![enc_pdu_status(st, h.pdu_type), h.padding as u8],
        None => enc_u16(h.padding),
    })
}

/// Decodes the header at `i`; `eff` is the protocol version that governs the
/// final two bytes, normally the one named in byte 0.
pub open spec fn dec_header(b: Seq<u8>, i: int, eff: ProtocolVersion) -> PduHeader {
    PduHeader {
        protocol_version: ProtocolVersion::from_raw(b[i]),
        exercise_id: b[i + 1],
        pdu_type: PduType::from_raw(b[i + 2]),
        protocol_family: ProtocolFamily::from_raw(b[i + 3]),
        time_stamp: dec_u32(b, i + 4),
        pdu_length: dec_u16(b, i + 8),
        pdu_status: if eff == ProtocolVersion::V7 {
            Some(dec_pdu_status(b[i + 10], PduType::from_raw(b[i + 2])))
        } else {
            None
        },
        padding: if eff == ProtocolVersion::V7 {
            b[i + 11] as u16
        } else {
            dec_u16(b, i + 10)
        },
    }
}

pub proof fn lemma_dec_header_wf(b: Seq<u8>, i: int, eff: ProtocolVersion)
    requires
        eff == ProtocolVersion::V7 ==> b[i] == 7,
        eff != ProtocolVersion::V7 ==> b[i] != 7,
    ensures
        dec_header(b, i, eff).wf(),
{
    lemma_dec_pdu_status_wf(b[i + 10], PduType::from_raw(b[i + 2]));
    assert((b[i + 11] as u16) < 256);
}

pub proof fn lemma_dec_enc_header(s: Seq<u8>, i: int, h: PduHeader)
    requires
        h.wf(),
        bytes_at(s, i, enc_header(h)),
    ensures
        dec_header(s, i, h.protocol_version) == h,
{
    let head = seq![
        h.protocol_version.raw(),
        h.exercise_id,
        h.pdu_type.raw(),
        h.protocol_family.raw(),
    ];
    let tail = match h.pdu_status {
        Some(st) => seq![enc_pdu_status(st, h.pdu_type), h.padding as u8],
        None => enc_u16(h.padding),
    };
    lemma_bytes_at_split(s, i, head + enc_u32(h.time_stamp) + enc_u16(h.pdu_length), tail);
    lemma_bytes_at_split(s, i, head + enc_u32(h.time_stamp), enc_u16(h.pdu_length));
    lemma_bytes_at_split(s, i, head, enc_u32(h.time_stamp));
    lemma_dec_enc_u32(s, i + 4, h.time_stamp);
    lemma_dec_enc_u16(s, i + 8, h.pdu_length);
    assert(s[i] == h.protocol_version.raw());
    assert(s[i + 1] == h.exercise_id);
    assert(s[i + 2] == h.pdu_type.raw());
    assert(s[i + 3] == h.protocol_family.raw());
    match h.pdu_status {
        Some(st) => {
            assert(h.protocol_version == ProtocolVersion::V7);
            assert(s[i] == 7);
            assert(s[i + 10] == enc_pdu_status(st, h.pdu_type));
            assert(s[i + 11] == h.padding as u8);
            lemma_dec_enc_pdu_status(st, h.pdu_type);
            assert((h.padding as u8) as u16 == h.padding);
        },
        None => {
            assert(h.protocol_version != ProtocolVersion::V7);
            lemma_dec_enc_u16(s, i + 10, h.padding);
        },
    }
}

/// Parses a header, reading the final two bytes per `eff`, the version that
/// the caller has already fixed.
pub fn parse_header_with_version(input: &Vec<u8>, pos: usize, end: usize, eff: ProtocolVersion) -> (r:
    Result<(PduHeader, usize), DisError>)
    requires
        end <= input@.len(),
    ensures
        r is Ok <==> pos + HEADER_LEN <= end,
        r matches Ok((h, n)) ==> h == dec_header(input@, pos as int, eff) && n == pos + HEADER_LEN,
        r matches Err(e) ==> e is InsufficientBytes,
{
    if pos <= end && end - pos >= HEADER_LEN {
        let protocol_version = ProtocolVersion::from_u8(input[pos]);
        let exercise_id = input[pos + 1];
        let pdu_type = PduType::from_u8(input[pos + 2]);
        let protocol_family = ProtocolFamily::from_u8(input[pos + 3]);
        let time_stamp = ((input[pos + 4] as u32) << 24) | ((input[pos + 5] as u32) << 16) | ((
        input[pos + 6] as u32) << 8) | (input[pos + 7] as u32);
        let pdu_length = ((input[pos + 8] as u16) << 8) | (input[pos + 9] as u16);
        let v7 = matches!(eff, ProtocolVersion::V7);
        let pdu_status = if v7 {
            Some(parse_pdu_status(input[pos + 10], pdu_type))
        } else {
            None
        };
        let padding = if v7 {
            input[pos + 11] as u16
        } else {
            ((input[pos + 10] as u16) << 8) | (input[pos + 11] as u16)
        };
        Ok((PduHeader {
            protocol_version,
            exercise_id,
            pdu_type,
            protocol_family,
            time_stamp,
            pdu_length,
            pdu_status,
            padding,
        }, pos + HEADER_LEN))
    } else {
        Err(DisError::InsufficientBytes {
            needed: HEADER_LEN,
            available: if pos <= end { end - pos } else { 0 },
        })
    }
}

/// True when the version byte names a revision this codec decodes.
pub open spec fn header_version_ok(b: Seq<u8>, i: int) -> bool {
    b[i] == 6 || b[i] == 7
}

/// Parses a header, taking the version from the header itself; a version
/// other than 6 or 7 is rejected.
pub fn parse_header(input: &Vec<u8>, pos: usize, end: usize) -> (r: Result<
    (PduHeader, usize),
    DisError,
>)
    requires
        end <= input@.len(),
    ensures
        r is Ok <==> pos + HEADER_LEN <= end && header_version_ok(input@, pos as int),
        r matches Ok((h, n)) ==> h == dec_header(
            input@,
            pos as int,
            ProtocolVersion::from_raw(input@[pos as int]),
        ) && n == pos + HEADER_LEN && h.wf(),
        r matches Err(e) ==> if pos + HEADER_LEN <= end {
            e == DisError::UnsupportedProtocolVersion(input@[pos as int])
        } else {
            e is InsufficientBytes
        },
{
    if pos < end && (input[pos] == 6 || input[pos] == 7) {
        let eff = ProtocolVersion::from_u8(input[pos]);
        let r = parse_header_with_version(input, pos, end, eff);
        proof {
            if pos + HEADER_LEN <= end {
                lemma_dec_header_wf(input@, pos as int, eff);
            }
        }
        r
    } else if pos < end {
        if end - pos >= HEADER_LEN {
            Err(DisError::UnsupportedProtocolVersion(input[pos]))
        } else {
            Err(DisError::InsufficientBytes { needed: HEADER_LEN, available: end - pos })
        }
    } else {
        Err(DisError::InsufficientBytes {
            needed: HEADER_LEN,
            available: if pos <= end { end - pos } else { 0 },
        })
    }
}

/// Serializes the header.
pub fn write_header(out: &mut Vec<u8>, h: &PduHeader)
    ensures
        final(out)@ == old(out)@ + enc_header(*h),
{
    out.push(h.protocol_version.to_u8());
    out.push(h.exercise_id);
    out.push(h.pdu_type.to_u8());
    out.push(h.protocol_family.to_u8());
    write_u32(out, h.time_stamp);
    write_u16(out, h.pdu_length);
    match &h.pdu_status {
        Some(st) => {
            let sb = write_pdu_status_byte(st, h.pdu_type);
            out.push(sb);
            out.push(h.padding as u8);
        },
        None => {
            write_u16(out, h.padding);
        },
    }
    assert(final(out)@ =~= old(out)@ + enc_header(*h));
}

// ---------------------------------------------------------------------------
// PduHeaderBuilder
// ---------------------------------------------------------------------------

/// Builder for a version-6 header: every field but the padding must be set.
#[derive(Clone, Copy, Debug, PartialEq, Eq, Structural)]
pub struct PduHeaderBuilder {
    pub protocol_version: Option<ProtocolVersion>,
    pub exercise_id: Option<u8>,
    pub pdu_type: Option<PduType>,
    pub protocol_family: Option<ProtocolFamily>,
    pub time_stamp: Option<u32>,
    pub pdu_length: Option<u16>,
    pub padding: u16,
}

impl PduHeaderBuilder {
    pub fn new() -> (r: PduHeaderBuilder)
        ensures
            r.protocol_version is None,
            r.exercise_id is None,
            r.pdu_type is None,
            r.protocol_family is None,
            r.time_stamp is None,
            r.pdu_length is None,
            r.padding == 0,
    {
        PduHeaderBuilder {
            protocol_version: None,
            exercise_id: None,
            pdu_type: None,
            protocol_family: None,
            time_stamp: None,
            pdu_length: None,
            padding: 0u16,
        }
    }

    pub fn protocol_version(self, version: ProtocolVersion) -> (r: Self)
        ensures
            r == (Self { protocol_version: Some(version), ..self }),
    {
        Self { protocol_version: Some(version), ..self }
    }

    pub fn exercise_id(self, id: u8) -> (r: Self)
        ensures
            r == (Self { exercise_id: Some(id), ..self }),
    {
        Self { exercise_id: Some(id), ..self }
    }

    pub fn pdu_type(self, pdu_type: PduType) -> (r: Self)
        ensures
            r == (Self { pdu_type: Some(pdu_type), ..self }),
    {
        Self { pdu_type: Some(pdu_type), ..self }
    }

    pub fn protocol_family(self, family: ProtocolFamily) -> (r: Self)
        ensures
            r == (Self { protocol_family: Some(family), ..self }),
    {
        Self { protocol_family: Some(family), ..self }
    }

    pub fn time_stamp(self, time: u32) -> (r: Self)
        ensures
            r == (Self { time_stamp: Some(time), ..self }),
    {
        Self { time_stamp: Some(time), ..self }
    }

    pub fn pdu_length(self, length: u16) -> (r: Self)
        ensures
            r == (Self { pdu_length: Some(length), ..self }),
    {
        Self { pdu_length: Some(length), ..self }
    }

    pub fn padding(self, padding: u16) -> (r: Self)
        ensures
            r == (Self { padding, ..self }),
    {
        Self { padding, ..self }
    }

    /// True exactly when every required field has been set.
    fn validate(&self) -> (r: bool)
        ensures
            r == (self.protocol_version is Some && self.exercise_id is Some && self.pdu_type
                is Some && self.protocol_family is Some && self.time_stamp is Some
                && self.pdu_length is Some),
    {
        self.protocol_version.is_some() && self.exercise_id.is_some() && self.pdu_type.is_some()
            && self.protocol_family.is_some() && self.time_stamp.is_some()
            && self.pdu_length.is_some()
    }

    /// Builds the header; every required field must have been set, and the
    /// result carries exactly the fields given, with no status byte.
    pub fn build(&self) -> (r: Result<PduHeader, ()>)
        ensures
            r is Ok <==> self.protocol_version is Some && self.exercise_id is Some && self.pdu_type
                is Some && self.protocol_family is Some && self.time_stamp is Some
                && self.pdu_length is Some,
            r matches Ok(h) ==> h == (PduHeader {
                protocol_version: self.protocol_version->0,
                exercise_id: self.exercise_id->0,
                pdu_type: self.pdu_type->0,
                protocol_family: self.protocol_family->0,
                time_stamp: self.time_stamp->0,
                pdu_length: self.pdu_length->0,
                pdu_status: None,
                padding: self.padding,
            }),
    {
        if !self.validate() {
            return Err(());
        }
        let protocol_version = match self.protocol_version {
            Some(x) => x,
            None => {
                return Err(());
            },
        };
        let exercise_id = match self.exercise_id {
            Some(x) => x,
            None => {
                return Err(());
            },
        };
        let pdu_type = match self.pdu_type {
            Some(x) => x,
            None => {
                return Err(());
            },
        };
        let protocol_family = match self.protocol_family {
            Some(x) => x,
            None => {
                return Err(());
            },
        };
        let time_stamp = match self.time_stamp {
            Some(x) => x,
            None => {
                return Err(());
            },
        };
        let pdu_length = match self.pdu_length {
            Some(x) => x,
            None => {
                return Err(());
            },
        };
        Ok(PduHeader {
            protocol_version,
            exercise_id,
            pdu_type,
            protocol_family,
            time_stamp,
            pdu_length,
            pdu_status: None,
            padding: self.padding,
        })
    }
}

} // verus!
