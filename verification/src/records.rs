//! Primitive wire records shared by every PDU body: simulation addresses and
//! identifiers, the entity type tuple, the three floating-point triples
//! (carried as raw IEEE-754 bit patterns, which the codec never interprets),
//! and the fixed and variable datum records of the simulation-management
//! family.

use vstd::prelude::*;
use crate::bytes::{
    bytes_at, dec_u16, dec_u32, dec_u64, enc_u16, enc_u32, enc_u64, lemma_bytes_at_split,
    lemma_dec_enc_u16, lemma_dec_enc_u32, lemma_dec_enc_u64, lemma_pad8, pad8, read_u16, read_u32,
    read_u64, read_bytes, write_u16, write_u32, write_u64, write_bytes, write_zeros, zeros,
};
use crate::enumerations::{Country, EntityKind};
use crate::errors::DisError;

verus! {

// ---------------------------------------------------------------------------
// Simulation addresses and identifiers
// ---------------------------------------------------------------------------

pub const SIMULATION_ADDRESS_LEN: usize = 4;

pub const ENTITY_ID_LEN: usize = 6;

pub const EVENT_ID_LEN: usize = 6;

/// The pair that addresses one simulation application within an exercise.
#[derive(Clone, Copy, Debug, PartialEq, Eq, Structural, Default)]
pub struct SimulationAddress {
    pub site_id: u16,
    pub application_id: u16,
}

/// A world-unique entity identifier: simulation address plus entity number.
#[derive(Clone, Copy, Debug, PartialEq, Eq, Structural, Default)]
pub struct EntityId {
    pub simulation_address: SimulationAddress,
    pub entity_id: u16,
}

/// An event identifier: simulation address plus event number.
#[derive(Clone, Copy, Debug, PartialEq, Eq, Structural, Default)]
pub struct EventId {
    pub simulation_address: SimulationAddress,
    pub event_id: u16,
}

pub open spec fn enc_simulation_address(v: SimulationAddress) -> Seq<u8> {
    enc_u16(v.site_id) + enc_u16(v.application_id)
}

pub open spec fn dec_simulation_address(b: Seq<u8>, i: int) -> SimulationAddress {
    SimulationAddress { site_id: dec_u16(b, i), application_id: dec_u16(b, i + 2) }
}

pub open spec fn enc_entity_id(v: EntityId) -> Seq<u8> {
    enc_simulation_address(v.simulation_address) + enc_u16(v.entity_id)
}

pub open spec fn dec_entity_id(b: Seq<u8>, i: int) -> EntityId {
    EntityId { simulation_address: dec_simulation_address(b, i), entity_id: dec_u16(b, i + 4) }
}

pub open spec fn enc_event_id(v: EventId) -> Seq<u8> {
    enc_simulation_address(v.simulation_address) + enc_u16(v.event_id)
}

pub open spec fn dec_event_id(b: Seq<u8>, i: int) -> EventId {
    EventId { simulation_address: dec_simulation_address(b, i), event_id: dec_u16(b, i + 4) }
}

pub proof fn lemma_dec_enc_simulation_address(s: Seq<u8>, i: int, v: SimulationAddress)
    requires
        bytes_at(s, i, enc_simulation_address(v)),
    ensures
        dec_simulation_address(s, i) == v,
{
    lemma_bytes_at_split(s, i, enc_u16(v.site_id), enc_u16(v.application_id));
    lemma_dec_enc_u16(s, i, v.site_id);
    lemma_dec_enc_u16(s, i + 2, v.application_id);
}

pub proof fn lemma_dec_enc_entity_id(s: Seq<u8>, i: int, v: EntityId)
    requires
        bytes_at(s, i, enc_entity_id(v)),
    ensures
        dec_entity_id(s, i) == v,
{
    lemma_bytes_at_split(s, i, enc_simulation_address(v.simulation_address), enc_u16(v.entity_id));
    lemma_dec_enc_simulation_address(s, i, v.simulation_address);
    lemma_dec_enc_u16(s, i + 4, v.entity_id);
}

pub proof fn lemma_dec_enc_event_id(s: Seq<u8>, i: int, v: EventId)
    requires
        bytes_at(s, i, enc_event_id(v)),
    ensures
        dec_event_id(s, i) == v,
{
    lemma_bytes_at_split(s, i, enc_simulation_address(v.simulation_address), enc_u16(v.event_id));
    lemma_dec_enc_simulation_address(s, i, v.simulation_address);
    lemma_dec_enc_u16(s, i + 4, v.event_id);
}

pub fn parse_entity_id(input: &Vec<u8>, pos: usize, end: usize) -> (r: Result<
    (EntityId, usize),
    DisError,
>)
    requires
        end <= input@.len(),
    ensures
        r is Ok <==> pos + ENTITY_ID_LEN <= end,
        r matches Ok((v, n)) ==> v == dec_entity_id(input@, pos as int) && n == pos
            + ENTITY_ID_LEN,
        r matches Err(e) ==> e is InsufficientBytes,
{
    let (site_id, pos) = match read_u16(input, pos, end) {
        Ok(x) => x,
        Err(e) => {
            return Err(e);
        },
    };
    let (application_id, pos) = match read_u16(input, pos, end) {
        Ok(x) => x,
        Err(e) => {
            return Err(e);
        },
    };
    let (entity_id, pos) = match read_u16(input, pos, end) {
        Ok(x) => x,
        Err(e) => {
            return Err(e);
        },
    };
    Ok((EntityId { simulation_address: SimulationAddress { site_id, application_id }, entity_id },
        pos))
}

pub fn parse_event_id(input: &Vec<u8>, pos: usize, end: usize) -> (r: Result<
    (EventId, usize),
    DisError,
>)
    requires
        end <= input@.len(),
    ensures
        r is Ok <==> pos + EVENT_ID_LEN <= end,
        r matches Ok((v, n)) ==> v == dec_event_id(input@, pos as int) && n == pos + EVENT_ID_LEN,
        r matches Err(e) ==> e is InsufficientBytes,
{
    let (site_id, pos) = match read_u16(input, pos, end) {
        Ok(x) => x,
        Err(e) => {
            return Err(e);
        },
    };
    let (application_id, pos) = match read_u16(input, pos, end) {
        Ok(x) => x,
        Err(e) => {
            return Err(e);
        },
    };
    let (event_id, pos) = match read_u16(input, pos, end) {
        Ok(x) => x,
        Err(e) => {
            return Err(e);
        },
    };
    Ok((EventId { simulation_address: SimulationAddress { site_id, application_id }, event_id },
        pos))
}

pub fn write_entity_id(out: &mut Vec<u8>, v: &EntityId)
    ensures
        final(out)@ == old(out)@ + enc_entity_id(*v),
{
    write_u16(out, v.simulation_address.site_id);
    write_u16(out, v.simulation_address.application_id);
    write_u16(out, v.entity_id);
    assert(final(out)@ =~= old(out)@ + enc_entity_id(*v));
}

pub fn write_event_id(out: &mut Vec<u8>, v: &EventId)
    ensures
        final(out)@ == old(out)@ + enc_event_id(*v),
{
    write_u16(out, v.simulation_address.site_id);
    write_u16(out, v.simulation_address.application_id);
    write_u16(out, v.event_id);
    assert(final(out)@ =~= old(out)@ + enc_event_id(*v));
}

// ---------------------------------------------------------------------------
// Entity type
// ---------------------------------------------------------------------------

pub const ENTITY_TYPE_LEN: usize = 8;

/// The 64-bit entity type tuple; the (kind, domain) pair discriminates
/// appearance decoding in the Entity State body.
#[derive(Clone, Copy, Debug, PartialEq, Eq, Structural)]
pub struct EntityType {
    pub kind: EntityKind,
    pub domain: u8,
    pub country: Country,
    pub category: u8,
    pub subcategory: u8,
    pub specific: u8,
    pub extra: u8,
}

impl EntityType {
    pub open spec fn wf(self) -> bool {
        self.kind.wf() && self.country.wf()
    }
}

pub open spec fn enc_entity_type(v: EntityType) -> Seq<u8> {
    seq![v.kind.raw(), v.domain] + enc_u16(v.country.raw()) + seq![
        v.category,
        v.subcategory,
        v.specific,
        v.extra,
    ]
}

pub open spec fn dec_entity_type(b: Seq<u8>, i: int) -> EntityType {
    EntityType {
        kind: EntityKind::from_raw(b[i]),
        domain: b[i + 1],
        country: Country::from_raw(dec_u16(b, i + 2)),
        category: b[i + 4],
        subcategory: b[i + 5],
        specific: b[i + 6],
        extra: b[i + 7],
    }
}

pub proof fn lemma_dec_enc_entity_type(s: Seq<u8>, i: int, v: EntityType)
    requires
        v.wf(),
        bytes_at(s, i, enc_entity_type(v)),
    ensures
        dec_entity_type(s, i) == v,
{
    lemma_bytes_at_split(
        s,
        i,
        seq![v.kind.raw(), v.domain] + enc_u16(v.country.raw()),
        seq![v.category, v.subcategory, v.specific, v.extra],
    );
    lemma_bytes_at_split(s, i, seq![v.kind.raw(), v.domain], enc_u16(v.country.raw()));
    lemma_dec_enc_u16(s, i + 2, v.country.raw());
    assert(s[i] == v.kind.raw());
    assert(s[i + 1] == v.domain);
    assert(s[i + 4] == v.category);
    assert(s[i + 5] == v.subcategory);
    assert(s[i + 6] == v.specific);
    assert(s[i + 7] == v.extra);
}

pub fn parse_entity_type(input: &Vec<u8>, pos: usize, end: usize) -> (r: Result<
    (EntityType, usize),
    DisError,
>)
    requires
        end <= input@.len(),
    ensures
        r is Ok <==> pos + ENTITY_TYPE_LEN <= end,
        r matches Ok((v, n)) ==> v == dec_entity_type(input@, pos as int) && n == pos
            + ENTITY_TYPE_LEN && v.wf(),
        r matches Err(e) ==> e is InsufficientBytes,
{
    if pos <= end && end - pos >= ENTITY_TYPE_LEN {
        let kind = EntityKind::from_u8(input[pos]);
        let domain = input[pos + 1];
        let country_raw = ((input[pos + 2] as u16) << 8) | (input[pos + 3] as u16);
        let country = Country::from_u16(country_raw);
        let category = input[pos + 4];
        let subcategory = input[pos + 5];
        let specific = input[pos + 6];
        let extra = input[pos + 7];
        Ok((EntityType { kind, domain, country, category, subcategory, specific, extra }, pos
            + ENTITY_TYPE_LEN))
    } else {
        Err(DisError::InsufficientBytes {
            needed: ENTITY_TYPE_LEN,
            available: if pos <= end { end - pos } else { 0 },
        })
    }
}

pub fn write_entity_type(out: &mut Vec<u8>, v: &EntityType)
    ensures
        final(out)@ == old(out)@ + enc_entity_type(*v),
{
    let kind = v.kind.to_u8();
    out.push(kind);
    out.push(v.domain);
    write_u16(out, v.country.to_u16());
    out.push(v.category);
    out.push(v.subcategory);
    out.push(v.specific);
    out.push(v.extra);
    assert(final(out)@ =~= old(out)@ + enc_entity_type(*v));
}

// ---------------------------------------------------------------------------
// Floating-point triples, carried as raw bit patterns
// ---------------------------------------------------------------------------

pub const VECTOR_F32_LEN: usize = 12;

pub const LOCATION_LEN: usize = 24;

pub const ORIENTATION_LEN: usize = 12;

/// Three 32-bit floats on the wire; each component is kept as the raw
/// big-endian IEEE-754 bit pattern, which round-trips exactly.
#[derive(Clone, Copy, Debug, PartialEq, Eq, Structural, Default)]
pub struct VectorF32 {
    pub first_vector_component: u32,
    pub second_vector_component: u32,
    pub third_vector_component: u32,
}

/// A world location: three 64-bit floats on the wire, kept as raw bit patterns.
#[derive(Clone, Copy, Debug, PartialEq, Eq, Structural, Default)]
pub struct Location {
    pub x_coordinate: u64,
    pub y_coordinate: u64,
    pub z_coordinate: u64,
}

/// Euler angles: three 32-bit floats on the wire, kept as raw bit patterns.
#[derive(Clone, Copy, Debug, PartialEq, Eq, Structural, Default)]
pub struct Orientation {
    pub psi: u32,
    pub theta: u32,
    pub phi: u32,
}

pub open spec fn enc_vector_f32(v: VectorF32) -> Seq<u8> {
    enc_u32(v.first_vector_component) + enc_u32(v.second_vector_component) + enc_u32(
        v.third_vector_component,
    )
}

pub open spec fn dec_vector_f32(b: Seq<u8>, i: int) -> VectorF32 {
    VectorF32 {
        first_vector_component: dec_u32(b, i),
        second_vector_component: dec_u32(b, i + 4),
        third_vector_component: dec_u32(b, i + 8),
    }
}

pub open spec fn enc_location(v: Location) -> Seq<u8> {
    enc_u64(v.x_coordinate) + enc_u64(v.y_coordinate) + enc_u64(v.z_coordinate)
}

pub open spec fn dec_location(b: Seq<u8>, i: int) -> Location {
    Location {
        x_coordinate: dec_u64(b, i),
        y_coordinate: dec_u64(b, i + 8),
        z_coordinate: dec_u64(b, i + 16),
    }
}

pub open spec fn enc_orientation(v: Orientation) -> Seq<u8> {
    enc_u32(v.psi) + enc_u32(v.theta) + enc_u32(v.phi)
}

pub open spec fn dec_orientation(b: Seq<u8>, i: int) -> Orientation {
    Orientation { psi: dec_u32(b, i), theta: dec_u32(b, i + 4), phi: dec_u32(b, i + 8) }
}

pub proof fn lemma_dec_enc_vector_f32(s: Seq<u8>, i: int, v: VectorF32)
    requires
        bytes_at(s, i, enc_vector_f32(v)),
    ensures
        dec_vector_f32(s, i) == v,
{
    lemma_bytes_at_split(
        s,
        i,
        enc_u32(v.first_vector_component) + enc_u32(v.second_vector_component),
        enc_u32(v.third_vector_component),
    );
    lemma_bytes_at_split(
        s,
        i,
        enc_u32(v.first_vector_component),
        enc_u32(v.second_vector_component),
    );
    lemma_dec_enc_u32(s, i, v.first_vector_component);
    lemma_dec_enc_u32(s, i + 4, v.second_vector_component);
    lemma_dec_enc_u32(s, i + 8, v.third_vector_component);
}

pub proof fn lemma_dec_enc_location(s: Seq<u8>, i: int, v: Location)
    requires
        bytes_at(s, i, enc_location(v)),
    ensures
        dec_location(s, i) == v,
{
    lemma_bytes_at_split(
        s,
        i,
        enc_u64(v.x_coordinate) + enc_u64(v.y_coordinate),
        enc_u64(v.z_coordinate),
    );
    lemma_bytes_at_split(s, i, enc_u64(v.x_coordinate), enc_u64(v.y_coordinate));
    lemma_dec_enc_u64(s, i, v.x_coordinate);
    lemma_dec_enc_u64(s, i + 8, v.y_coordinate);
    lemma_dec_enc_u64(s, i + 16, v.z_coordinate);
}

pub proof fn lemma_dec_enc_orientation(s: Seq<u8>, i: int, v: Orientation)
    requires
        bytes_at(s, i, enc_orientation(v)),
    ensures
        dec_orientation(s, i) == v,
{
    lemma_bytes_at_split(s, i, enc_u32(v.psi) + enc_u32(v.theta), enc_u32(v.phi));
    lemma_bytes_at_split(s, i, enc_u32(v.psi), enc_u32(v.theta));
    lemma_dec_enc_u32(s, i, v.psi);
    lemma_dec_enc_u32(s, i + 4, v.theta);
    lemma_dec_enc_u32(s, i + 8, v.phi);
}

pub fn parse_vector_f32(input: &Vec<u8>, pos: usize, end: usize) -> (r: Result<
    (VectorF32, usize),
    DisError,
>)
    requires
        end <= input@.len(),
    ensures
        r is Ok <==> pos + VECTOR_F32_LEN <= end,
        r matches Ok((v, n)) ==> v == dec_vector_f32(input@, pos as int) && n == pos
            + VECTOR_F32_LEN,
        r matches Err(e) ==> e is InsufficientBytes,
{
    let (first, pos) = match read_u32(input, pos, end) {
        Ok(x) => x,
        Err(e) => {
            return Err(e);
        },
    };
    let (second, pos) = match read_u32(input, pos, end) {
        Ok(x) => x,
        Err(e) => {
            return Err(e);
        },
    };
    let (third, pos) = match read_u32(input, pos, end) {
        Ok(x) => x,
        Err(e) => {
            return Err(e);
        },
    };
    Ok((VectorF32 {
        first_vector_component: first,
        second_vector_component: second,
        third_vector_component: third,
    }, pos))
}

pub fn parse_location(input: &Vec<u8>, pos: usize, end: usize) -> (r: Result<
    (Location, usize),
    DisError,
>)
    requires
        end <= input@.len(),
    ensures
        r is Ok <==> pos + LOCATION_LEN <= end,
        r matches Ok((v, n)) ==> v == dec_location(input@, pos as int) && n == pos + LOCATION_LEN,
        r matches Err(e) ==> e is InsufficientBytes,
{
    let (x, pos) = match read_u64(input, pos, end) {
        Ok(x) => x,
        Err(e) => {
            return Err(e);
        },
    };
    let (y, pos) = match read_u64(input, pos, end) {
        Ok(x) => x,
        Err(e) => {
            return Err(e);
        },
    };
    let (z, pos) = match read_u64(input, pos, end) {
        Ok(x) => x,
        Err(e) => {
            return Err(e);
        },
    };
    Ok((Location { x_coordinate: x, y_coordinate: y, z_coordinate: z }, pos))
}

pub fn parse_orientation(input: &Vec<u8>, pos: usize, end: usize) -> (r: Result<
    (Orientation, usize),
    DisError,
>)
    requires
        end <= input@.len(),
    ensures
        r is Ok <==> pos + ORIENTATION_LEN <= end,
        r matches Ok((v, n)) ==> v == dec_orientation(input@, pos as int) && n == pos
            + ORIENTATION_LEN,
        r matches Err(e) ==> e is InsufficientBytes,
{
    let (psi, pos) = match read_u32(input, pos, end) {
        Ok(x) => x,
        Err(e) => {
            return Err(e);
        },
    };
    let (theta, pos) = match read_u32(input, pos, end) {
        Ok(x) => x,
        Err(e) => {
            return Err(e);
        },
    };
    let (phi, pos) = match read_u32(input, pos, end) {
        Ok(x) => x,
        Err(e) => {
            return Err(e);
        },
    };
    Ok((Orientation { psi, theta, phi }, pos))
}

pub fn write_vector_f32(out: &mut Vec<u8>, v: &VectorF32)
    ensures
        final(out)@ == old(out)@ + enc_vector_f32(*v),
{
    write_u32(out, v.first_vector_component);
    write_u32(out, v.second_vector_component);
    write_u32(out, v.third_vector_component);
    assert(final(out)@ =~= old(out)@ + enc_vector_f32(*v));
}

pub fn write_location(out: &mut Vec<u8>, v: &Location)
    ensures
        final(out)@ == old(out)@ + enc_location(*v),
{
    write_u64(out, v.x_coordinate);
    write_u64(out, v.y_coordinate);
    write_u64(out, v.z_coordinate);
    assert(final(out)@ =~= old(out)@ + enc_location(*v));
}

pub fn write_orientation(out: &mut Vec<u8>, v: &Orientation)
    ensures
        final(out)@ == old(out)@ + enc_orientation(*v),
{
    write_u32(out, v.psi);
    write_u32(out, v.theta);
    write_u32(out, v.phi);
    assert(final(out)@ =~= old(out)@ + enc_orientation(*v));
}

// ---------------------------------------------------------------------------
// Fixed and variable datum records
// ---------------------------------------------------------------------------

pub const FIXED_DATUM_LEN: usize = 8;

pub const BASE_VARIABLE_DATUM_LEN: usize = 8;

/// A fixed datum record: a 32-bit datum identifier and a 32-bit value.
#[derive(Clone, Copy, Debug, PartialEq, Eq, Structural, Default)]
pub struct FixedDatum {
    pub datum_id: u32,
    pub datum_value: u32,
}

/// A variable datum record: a 32-bit datum identifier, a length in bits, and
/// the value bytes, padded on the wire to an eight-octet boundary.
#[derive(Clone, Debug, PartialEq, Eq, Default)]
pub struct VariableDatum {
    pub datum_id: u32,
    pub datum_value: Vec<u8>,
}

/// The mathematical model of a variable datum record.
pub struct VariableDatumV {
    pub datum_id: u32,
    pub datum_value: Seq<u8>,
}

impl View for VariableDatum {
    type V = VariableDatumV;

    open spec fn view(&self) -> VariableDatumV {
        VariableDatumV { datum_id: self.datum_id, datum_value: self.datum_value@ }
    }
}

impl VariableDatumV {
    /// The length in bits must be representable in the 32-bit length field.
    pub open spec fn wf(self) -> bool {
        8 * self.datum_value.len() <= u32::MAX
    }

    /// The bytes this record occupies on the wire, padding included.
    pub open spec fn wire_len(self) -> int {
        pad8(8 + self.datum_value.len() as int)
    }
}

pub open spec fn enc_fixed_datum(v: FixedDatum) -> Seq<u8> {
    enc_u32(v.datum_id) + enc_u32(v.datum_value)
}

pub open spec fn dec_fixed_datum(b: Seq<u8>, i: int) -> FixedDatum {
    FixedDatum { datum_id: dec_u32(b, i), datum_value: dec_u32(b, i + 4) }
}

pub proof fn lemma_dec_enc_fixed_datum(s: Seq<u8>, i: int, v: FixedDatum)
    requires
        bytes_at(s, i, enc_fixed_datum(v)),
    ensures
        dec_fixed_datum(s, i) == v,
{
    lemma_bytes_at_split(s, i, enc_u32(v.datum_id), enc_u32(v.datum_value));
    lemma_dec_enc_u32(s, i, v.datum_id);
    lemma_dec_enc_u32(s, i + 4, v.datum_value);
}

/// A variable datum on the wire: identifier, length in bits, value, zero pad.
pub open spec fn enc_variable_datum(v: VariableDatumV) -> Seq<u8> {
    enc_u32(v.datum_id) + enc_u32((8 * v.datum_value.len()) as u32) + v.datum_value + zeros(
        v.wire_len() - 8 - v.datum_value.len(),
    )
}

/// The value length in bytes declared by the length-in-bits field at `i + 4`;
/// a trailing partial byte, which a conforming encoder never produces, is left
/// to the padding.
pub open spec fn dec_variable_datum_value_len(b: Seq<u8>, i: int) -> int {
    (dec_u32(b, i + 4) as int) / 8
}

/// The bytes the variable datum record at `i` occupies, padding included.
pub open spec fn dec_variable_datum_wire_len(b: Seq<u8>, i: int) -> int {
    pad8(8 + dec_variable_datum_value_len(b, i))
}

pub open spec fn dec_variable_datum(b: Seq<u8>, i: int) -> VariableDatumV {
    VariableDatumV {
        datum_id: dec_u32(b, i),
        datum_value: b.subrange(i + 8, i + 8 + dec_variable_datum_value_len(b, i)),
    }
}

pub proof fn lemma_enc_variable_datum_len(v: VariableDatumV)
    requires
        v.wf(),
    ensures
        enc_variable_datum(v).len() == v.wire_len(),
        v.wire_len() % 8 == 0,
        8 + v.datum_value.len() <= v.wire_len() < 16 + v.datum_value.len(),
{
    lemma_pad8(8 + v.datum_value.len() as int);
}

/// The padding law: a variable datum record occupies the smallest multiple of
/// eight octets that holds its eight-byte prefix and its value, and every
/// trailing pad byte is zero on encode.
pub proof fn lemma_variable_datum_padding(v: VariableDatumV)
    requires
        v.wf(),
    ensures
        enc_variable_datum(v).len() == pad8(8 + v.datum_value.len() as int),
        forall|k: int|
            8 + v.datum_value.len() <= k < v.wire_len() ==> enc_variable_datum(v)[k] == 0,
{
    let len = v.datum_value.len() as int;
    lemma_pad8(8 + len);
    assert forall|k: int|
        8 + len <= k < v.wire_len() implies enc_variable_datum(v)[k] == 0 by {
        assert(enc_variable_datum(v)[k] == zeros(v.wire_len() - 8 - len)[k - 8 - len]);
    }
}

pub proof fn lemma_dec_enc_variable_datum(s: Seq<u8>, i: int, v: VariableDatumV)
    requires
        v.wf(),
        bytes_at(s, i, enc_variable_datum(v)),
    ensures
        dec_variable_datum(s, i) == v,
        dec_variable_datum_value_len(s, i) == v.datum_value.len(),
        dec_variable_datum_wire_len(s, i) == v.wire_len(),
{
    let len = v.datum_value.len() as int;
    lemma_pad8(8 + len);
    let head = enc_u32(v.datum_id) + enc_u32((8 * len) as u32);
    let tail = v.datum_value + zeros(v.wire_len() - 8 - len);
    assert(enc_variable_datum(v) =~= head + tail);
    lemma_bytes_at_split(s, i, head, tail);
    lemma_bytes_at_split(s, i, enc_u32(v.datum_id), enc_u32((8 * len) as u32));
    lemma_dec_enc_u32(s, i, v.datum_id);
    lemma_dec_enc_u32(s, i + 4, (8 * len) as u32);
    lemma_bytes_at_split(s, i + 8, v.datum_value, zeros(v.wire_len() - 8 - len));
    assert(dec_u32(s, i + 4) == 8 * len);
    assert(dec_variable_datum_value_len(s, i) == len) by {
        vstd::arithmetic::div_mod::lemma_fundamental_div_mod_converse(8 * len, 8, len, 0);
    }
    assert(s.subrange(i + 8, i + 8 + len) =~= v.datum_value);
}

pub fn parse_fixed_datum(input: &Vec<u8>, pos: usize, end: usize) -> (r: Result<
    (FixedDatum, usize),
    DisError,
>)
    requires
        end <= input@.len(),
    ensures
        r is Ok <==> pos + FIXED_DATUM_LEN <= end,
        r matches Ok((v, n)) ==> v == dec_fixed_datum(input@, pos as int) && n == pos
            + FIXED_DATUM_LEN,
        r matches Err(e) ==> e is InsufficientBytes,
{
    let (datum_id, pos) = match read_u32(input, pos, end) {
        Ok(x) => x,
        Err(e) => {
            return Err(e);
        },
    };
    let (datum_value, pos) = match read_u32(input, pos, end) {
        Ok(x) => x,
        Err(e) => {
            return Err(e);
        },
    };
    Ok((FixedDatum { datum_id, datum_value }, pos))
}

pub fn write_fixed_datum(out: &mut Vec<u8>, v: &FixedDatum)
    ensures
        final(out)@ == old(out)@ + enc_fixed_datum(*v),
{
    write_u32(out, v.datum_id);
    write_u32(out, v.datum_value);
    assert(final(out)@ =~= old(out)@ + enc_fixed_datum(*v));
}

/// Parses one variable datum record; the pad bytes are skipped without being
/// interpreted, as the protocol asks.
pub fn parse_variable_datum(input: &Vec<u8>, pos: usize, end: usize) -> (r: Result<
    (VariableDatum, usize),
    DisError,
>)
    requires
        end <= input@.len(),
    ensures
        r is Ok <==> pos + 8 <= end && pos + dec_variable_datum_wire_len(input@, pos as int)
            <= end,
        r matches Ok((v, n)) ==> v@ == dec_variable_datum(input@, pos as int) && n == pos
            + dec_variable_datum_wire_len(input@, pos as int) && v@.wf(),
        r matches Err(e) ==> e is InsufficientBytes,
{
    let (datum_id, p) = match read_u32(input, pos, end) {
        Ok(x) => x,
        Err(e) => {
            return Err(e);
        },
    };
    let (length_bits, p) = match read_u32(input, p, end) {
        Ok(x) => x,
        Err(e) => {
            return Err(e);
        },
    };
    proof {
        lemma_pad8(8 + dec_variable_datum_value_len(input@, pos as int));
    }
    let value_len_u64: u64 = (length_bits as u64) / 8;
    let padded_u64: u64 = ((8 + value_len_u64) + 7) / 8 * 8;
    assert(value_len_u64 == dec_variable_datum_value_len(input@, pos as int));
    assert(padded_u64 == dec_variable_datum_wire_len(input@, pos as int)) by {
        vstd::arithmetic::div_mod::lemma_fundamental_div_mod(8 + value_len_u64 + 7, 8);
    }
    if padded_u64 > (end - pos) as u64 {
        return Err(DisError::InsufficientBytes { needed: 8, available: end - pos });
    }
    let value_len = value_len_u64 as usize;
    let (datum_value, p) = match read_bytes(input, p, value_len, end) {
        Ok(x) => x,
        Err(e) => {
            return Err(e);
        },
    };
    let total = pos + padded_u64 as usize;
    assert(8 * datum_value@.len() <= u32::MAX) by {
        vstd::arithmetic::div_mod::lemma_fundamental_div_mod(length_bits as int, 8);
    }
    Ok((VariableDatum { datum_id, datum_value }, total))
}

/// Serializes one variable datum record, zero padding included.
pub fn write_variable_datum(out: &mut Vec<u8>, v: &VariableDatum)
    requires
        v@.wf(),
    ensures
        final(out)@ == old(out)@ + enc_variable_datum(v@),
{
    proof {
        lemma_pad8(8 + v.datum_value@.len() as int);
    }
    write_u32(out, v.datum_id);
    let len = v.datum_value.len();
    write_u32(out, 8 * (len as u32));
    write_bytes(out, &v.datum_value);
    let (_, pad) = crate::bytes::length_padded_to_eight(8 + len);
    write_zeros(out, pad);
    assert(final(out)@ =~= old(out)@ + enc_variable_datum(v@));
}

} // verus!
