//! The Fire PDU body. The 16-byte descriptor's interpretation is selected by
//! the header's fire-type indicator: a munition descriptor under `Munition`
//! (the default when the header carries no indicator), an expendable
//! descriptor under `Expendable`.

use vstd::prelude::*;
use crate::bytes::{
    bytes_at, dec_u16, dec_u32, enc_u16, enc_u32, lemma_bytes_at_split, lemma_dec_enc_u16,
    lemma_dec_enc_u32, read_u32, write_u16, write_u32,
};
use crate::enumerations::FireTypeIndicator;
use crate::errors::DisError;
use crate::records::{
    dec_entity_id, dec_entity_type, dec_event_id, dec_location, dec_vector_f32, enc_entity_id,
    enc_entity_type, enc_event_id, enc_location, enc_vector_f32, lemma_dec_enc_entity_id,
    lemma_dec_enc_entity_type, lemma_dec_enc_event_id, lemma_dec_enc_location,
    lemma_dec_enc_vector_f32, parse_entity_id, parse_entity_type, parse_event_id, parse_location,
    parse_vector_f32, write_entity_id, write_entity_type, write_event_id, write_location,
    write_vector_f32, EntityId, EntityType, EventId, Location, VectorF32,
};

verus! {

pub const FIRE_BODY_LEN: usize = 84;

pub const DESCRIPTOR_LEN: usize = 16;

/// The munition part of a descriptor: warhead, fuse, quantity and rate codes.
#[derive(Clone, Copy, Debug, PartialEq, Eq, Structural, Default)]
pub struct MunitionDescriptor {
    pub warhead: u16,
    pub fuse: u16,
    pub quantity: u16,
    pub rate: u16,
}

/// The 16-byte descriptor record, interpreted per the fire-type indicator.
#[derive(Clone, Copy, Debug, PartialEq, Eq, Structural)]
pub enum DescriptorRecord {
    Munition { entity_type: EntityType, munition: MunitionDescriptor },
    Expendable { entity_type: EntityType, reserved: u32, quantity: u16, rate: u16 },
}

impl DescriptorRecord {
    pub open spec fn wf(self) -> bool {
        match self {
            DescriptorRecord::Munition { entity_type, .. } => entity_type.wf(),
            DescriptorRecord::Expendable { entity_type, .. } => entity_type.wf(),
        }
    }

    /// The variant a decoder selects under the given fire-type indicator.
    pub open spec fn matches_fti(self, fti: FireTypeIndicator) -> bool {
        (self is Expendable) <==> fti == FireTypeIndicator::Expendable
    }
}

/// The Fire PDU body.
#[derive(Clone, Copy, Debug, PartialEq, Eq, Structural)]
pub struct Fire {
    pub firing_entity_id: EntityId,
    pub target_entity_id: EntityId,
    pub entity_id: EntityId,
    pub event_id: EventId,
    pub fire_mission_index: u32,
    pub location_in_world: Location,
    pub descriptor: DescriptorRecord,
    pub velocity: VectorF32,
    pub range: u32,
}

impl Fire {
    pub open spec fn wf(self) -> bool {
        self.descriptor.wf()
    }
}

pub open spec fn enc_descriptor(d: DescriptorRecord) -> Seq<u8> {
    match d {
        DescriptorRecord::Munition { entity_type, munition } => enc_entity_type(entity_type)
            + enc_u16(munition.warhead) + enc_u16(munition.fuse) + enc_u16(munition.quantity)
            + enc_u16(munition.rate),
        DescriptorRecord::Expendable { entity_type, reserved, quantity, rate } => enc_entity_type(
            entity_type,
        ) + enc_u32(reserved) + enc_u16(quantity) + enc_u16(rate),
    }
}

pub open spec fn dec_descriptor(b: Seq<u8>, i: int, fti: FireTypeIndicator) -> DescriptorRecord {
    if fti == FireTypeIndicator::Expendable {
        DescriptorRecord::Expendable {
            entity_type: dec_entity_type(b, i),
            reserved: dec_u32(b, i + 8),
            quantity: dec_u16(b, i + 12),
            rate: dec_u16(b, i + 14),
        }
    } else {
        DescriptorRecord::Munition {
            entity_type: dec_entity_type(b, i),
            munition: MunitionDescriptor {
                warhead: dec_u16(b, i + 8),
                fuse: dec_u16(b, i + 10),
                quantity: dec_u16(b, i + 12),
                rate: dec_u16(b, i + 14),
            },
        }
    }
}

pub proof fn lemma_dec_enc_descriptor(
    s: Seq<u8>,
    i: int,
    d: DescriptorRecord,
    fti: FireTypeIndicator,
)
    requires
        d.wf(),
        d.matches_fti(fti),
        bytes_at(s, i, enc_descriptor(d)),
    ensures
        dec_descriptor(s, i, fti) == d,
{
    match d {
        DescriptorRecord::Munition { entity_type, munition } => {
            let c0 = enc_entity_type(entity_type);
            let c1 = enc_u16(munition.warhead);
            let c2 = enc_u16(munition.fuse);
            let c3 = enc_u16(munition.quantity);
            let c4 = enc_u16(munition.rate);
            lemma_bytes_at_split(s, i, c0 + c1 + c2 + c3, c4);
            lemma_bytes_at_split(s, i, c0 + c1 + c2, c3);
            lemma_bytes_at_split(s, i, c0 + c1, c2);
            lemma_bytes_at_split(s, i, c0, c1);
            lemma_dec_enc_entity_type(s, i, entity_type);
            lemma_dec_enc_u16(s, i + 8, munition.warhead);
            lemma_dec_enc_u16(s, i + 10, munition.fuse);
            lemma_dec_enc_u16(s, i + 12, munition.quantity);
            lemma_dec_enc_u16(s, i + 14, munition.rate);
        },
        DescriptorRecord::Expendable { entity_type, reserved, quantity, rate } => {
            let c0 = enc_entity_type(entity_type);
            let c1 = enc_u32(reserved);
            let c2 = enc_u16(quantity);
            let c3 = enc_u16(rate);
            lemma_bytes_at_split(s, i, c0 + c1 + c2, c3);
            lemma_bytes_at_split(s, i, c0 + c1, c2);
            lemma_bytes_at_split(s, i, c0, c1);
            lemma_dec_enc_entity_type(s, i, entity_type);
            lemma_dec_enc_u32(s, i + 8, reserved);
            lemma_dec_enc_u16(s, i + 12, quantity);
            lemma_dec_enc_u16(s, i + 14, rate);
        },
    }
}

pub open spec fn enc_fire(f: Fire) -> Seq<u8> {
    enc_entity_id(f.firing_entity_id) + enc_entity_id(f.target_entity_id) + enc_entity_id(
        f.entity_id,
    ) + enc_event_id(f.event_id) + enc_u32(f.fire_mission_index) + enc_location(
        f.location_in_world,
    ) + enc_descriptor(f.descriptor) + enc_vector_f32(f.velocity) + enc_u32(f.range)
}

pub open spec fn dec_fire(b: Seq<u8>, i: int, fti: FireTypeIndicator) -> Fire {
    Fire {
        firing_entity_id: dec_entity_id(b, i),
        target_entity_id: dec_entity_id(b, i + 6),
        entity_id: dec_entity_id(b, i + 12),
        event_id: dec_event_id(b, i + 18),
        fire_mission_index: dec_u32(b, i + 24),
        location_in_world: dec_location(b, i + 28),
        descriptor: dec_descriptor(b, i + 52, fti),
        velocity: dec_vector_f32(b, i + 68),
        range: dec_u32(b, i + 80),
    }
}

pub proof fn lemma_dec_enc_fire(s: Seq<u8>, i: int, f: Fire, fti: FireTypeIndicator)
    requires
        f.wf(),
        f.descriptor.matches_fti(fti),
        bytes_at(s, i, enc_fire(f)),
    ensures
        dec_fire(s, i, fti) == f,
{
    let c0 = enc_entity_id(f.firing_entity_id);
    let c1 = enc_entity_id(f.target_entity_id);
    let c2 = enc_entity_id(f.entity_id);
    let c3 = enc_event_id(f.event_id);
    let c4 = enc_u32(f.fire_mission_index);
    let c5 = enc_location(f.location_in_world);
    let c6 = enc_descriptor(f.descriptor);
    let c7 = enc_vector_f32(f.velocity);
    let c8 = enc_u32(f.range);
    assert(c6.len() == 16);
    lemma_bytes_at_split(s, i, c0 + c1 + c2 + c3 + c4 + c5 + c6 + c7, c8);
    lemma_bytes_at_split(s, i, c0 + c1 + c2 + c3 + c4 + c5 + c6, c7);
    lemma_bytes_at_split(s, i, c0 + c1 + c2 + c3 + c4 + c5, c6);
    lemma_bytes_at_split(s, i, c0 + c1 + c2 + c3 + c4, c5);
    lemma_bytes_at_split(s, i, c0 + c1 + c2 + c3, c4);
    lemma_bytes_at_split(s, i, c0 + c1 + c2, c3);
    lemma_bytes_at_split(s, i, c0 + c1, c2);
    lemma_bytes_at_split(s, i, c0, c1);
    lemma_dec_enc_entity_id(s, i, f.firing_entity_id);
    lemma_dec_enc_entity_id(s, i + 6, f.target_entity_id);
    lemma_dec_enc_entity_id(s, i + 12, f.entity_id);
    lemma_dec_enc_event_id(s, i + 18, f.event_id);
    lemma_dec_enc_u32(s, i + 24, f.fire_mission_index);
    lemma_dec_enc_location(s, i + 28, f.location_in_world);
    lemma_dec_enc_descriptor(s, i + 52, f.descriptor, fti);
    lemma_dec_enc_vector_f32(s, i + 68, f.velocity);
    lemma_dec_enc_u32(s, i + 80, f.range);
}

/// Parses the 16-byte descriptor per the fire-type indicator.
pub fn parse_descriptor(input: &Vec<u8>, pos: usize, end: usize, fti: FireTypeIndicator) -> (r:
    Result<(DescriptorRecord, usize), DisError>)
    requires
        end <= input@.len(),
    ensures
        r is Ok <==> pos + DESCRIPTOR_LEN <= end,
        r matches Ok((v, n)) ==> v == dec_descriptor(input@, pos as int, fti) && n == pos
            + DESCRIPTOR_LEN,
        r matches Err(e) ==> e is InsufficientBytes,
{
    if pos <= end && end - pos >= DESCRIPTOR_LEN {
        let (entity_type, p) = match parse_entity_type(input, pos, end) {
            Ok(x) => x,
            Err(e) => {
                return Err(e);
            },
        };
        if matches!(fti, FireTypeIndicator::Expendable) {
            let reserved = ((input[pos + 8] as u32) << 24) | ((input[pos + 9] as u32) << 16) | ((
            input[pos + 10] as u32) << 8) | (input[pos + 11] as u32);
            let quantity = ((input[pos + 12] as u16) << 8) | (input[pos + 13] as u16);
            let rate = ((input[pos + 14] as u16) << 8) | (input[pos + 15] as u16);
            Ok((DescriptorRecord::Expendable { entity_type, reserved, quantity, rate }, pos
                + DESCRIPTOR_LEN))
        } else {
            let warhead = ((input[pos + 8] as u16) << 8) | (input[pos + 9] as u16);
            let fuse = ((input[pos + 10] as u16) << 8) | (input[pos + 11] as u16);
            let quantity = ((input[pos + 12] as u16) << 8) | (input[pos + 13] as u16);
            let rate = ((input[pos + 14] as u16) << 8) | (input[pos + 15] as u16);
            Ok((DescriptorRecord::Munition {
                entity_type,
                munition: MunitionDescriptor { warhead, fuse, quantity, rate },
            }, pos + DESCRIPTOR_LEN))
        }
    } else {
        Err(DisError::InsufficientBytes {
            needed: DESCRIPTOR_LEN,
            available: if pos <= end { end - pos } else { 0 },
        })
    }
}

/// Parses a Fire body; the caller supplies the header's fire-type indicator.
pub fn parse_fire_body(input: &Vec<u8>, pos: usize, end: usize, fti: FireTypeIndicator) -> (r:
    Result<(Fire, usize), DisError>)
    requires
        end <= input@.len(),
    ensures
        r is Ok <==> pos + FIRE_BODY_LEN <= end,
        r matches Ok((v, n)) ==> v == dec_fire(input@, pos as int, fti) && n == pos + FIRE_BODY_LEN
            && v.wf() && v.descriptor.matches_fti(fti),
        r matches Err(e) ==> e is InsufficientBytes,
{
    let (firing_entity_id, p) = match parse_entity_id(input, pos, end) {
        Ok(x) => x,
        Err(e) => {
            return Err(e);
        },
    };
    let (target_entity_id, p) = match parse_entity_id(input, p, end) {
        Ok(x) => x,
        Err(e) => {
            return Err(e);
        },
    };
    let (entity_id, p) = match parse_entity_id(input, p, end) {
        Ok(x) => x,
        Err(e) => {
            return Err(e);
        },
    };
    let (event_id, p) = match parse_event_id(input, p, end) {
        Ok(x) => x,
        Err(e) => {
            return Err(e);
        },
    };
    let (fire_mission_index, p) = match read_u32(input, p, end) {
        Ok(x) => x,
        Err(e) => {
            return Err(e);
        },
    };
    let (location_in_world, p) = match parse_location(input, p, end) {
        Ok(x) => x,
        Err(e) => {
            return Err(e);
        },
    };
    let (descriptor, p) = match parse_descriptor(input, p, end, fti) {
        Ok(x) => x,
        Err(e) => {
            return Err(e);
        },
    };
    let (velocity, p) = match parse_vector_f32(input, p, end) {
        Ok(x) => x,
        Err(e) => {
            return Err(e);
        },
    };
    let (range, p) = match read_u32(input, p, end) {
        Ok(x) => x,
        Err(e) => {
            return Err(e);
        },
    };
    Ok((Fire {
        firing_entity_id,
        target_entity_id,
        entity_id,
        event_id,
        fire_mission_index,
        location_in_world,
        descriptor,
        velocity,
        range,
    }, p))
}

/// Serializes the descriptor; the variant itself selects the layout.
pub fn write_descriptor(out: &mut Vec<u8>, d: &DescriptorRecord)
    ensures
        final(out)@ == old(out)@ + enc_descriptor(*d),
{
    match d {
        DescriptorRecord::Munition { entity_type, munition } => {
            write_entity_type(out, entity_type);
            write_u16(out, munition.warhead);
            write_u16(out, munition.fuse);
            write_u16(out, munition.quantity);
            write_u16(out, munition.rate);
        },
        DescriptorRecord::Expendable { entity_type, reserved, quantity, rate } => {
            write_entity_type(out, entity_type);
            write_u32(out, *reserved);
            write_u16(out, *quantity);
            write_u16(out, *rate);
        },
    }
    assert(final(out)@ =~= old(out)@ + enc_descriptor(*d));
}

/// Serializes a Fire body.
pub fn write_fire_body(out: &mut Vec<u8>, f: &Fire)
    ensures
        final(out)@ == old(out)@ + enc_fire(*f),
{
    write_entity_id(out, &f.firing_entity_id);
    write_entity_id(out, &f.target_entity_id);
    write_entity_id(out, &f.entity_id);
    write_event_id(out, &f.event_id);
    write_u32(out, f.fire_mission_index);
    write_location(out, &f.location_in_world);
    write_descriptor(out, &f.descriptor);
    write_vector_f32(out, &f.velocity);
    write_u32(out, f.range);
    assert(final(out)@ =~= old(out)@ + enc_fire(*f));
}

} // verus!
