//! The Entity State PDU body: the fixed 132-byte prefix (identifiers, entity
//! types, kinematics, appearance, dead reckoning, marking, capabilities)
//! followed by the articulation parameter records announced by the count byte.

use vstd::prelude::*;
use vstd::string::StrSliceExecFns;
use crate::appearance::{
    Appearance, APPEARANCE_LEN, dec_appearance, enc_appearance, lemma_dec_enc_appearance,
    parse_appearance, write_appearance, SpecificAppearance,
};
use crate::bytes::{
    bytes_at, dec_u16, dec_u32, dec_u64, enc_u16, enc_u32, enc_u64, lemma_bytes_at_split,
    lemma_dec_enc_u16, lemma_dec_enc_u32, lemma_dec_enc_u64, read_u16, read_u32, read_u64,
    read_bytes, read_u8, write_u16, write_u32, write_u64, write_bytes,
};
use crate::enumerations::{
    ApTypeDesignator, ArticulatedPartsTypeClass, ArticulatedPartsTypeMetric, DrAlgorithm,
    EntityMarkingCharacterSet, ForceId,
};
use crate::errors::DisError;
use crate::records::{
    dec_entity_id, dec_entity_type, dec_location, dec_orientation, dec_vector_f32, enc_entity_id,
    enc_entity_type, enc_location, enc_orientation, enc_vector_f32, lemma_dec_enc_entity_id,
    lemma_dec_enc_entity_type, lemma_dec_enc_location, lemma_dec_enc_orientation,
    lemma_dec_enc_vector_f32, parse_entity_id, parse_entity_type, parse_location,
    parse_orientation, parse_vector_f32, write_entity_id, write_entity_type, write_location,
    write_orientation, write_vector_f32, EntityId, EntityType, Location, Orientation, VectorF32,
    ENTITY_ID_LEN, ENTITY_TYPE_LEN, LOCATION_LEN, ORIENTATION_LEN, VECTOR_F32_LEN,
};

verus! {

// ---------------------------------------------------------------------------
// Entity marking
// ---------------------------------------------------------------------------

pub const MARKING_LEN: usize = 12;

/// The entity marking: a character set code and up to eleven characters.
/// On the wire the text occupies exactly eleven bytes, right-padded with
/// spaces; decoding trims trailing spaces and NUL bytes.
#[derive(Clone, Debug, PartialEq, Eq)]
pub struct EntityMarking {
    pub marking_character_set: EntityMarkingCharacterSet,
    pub marking_string: String,
}

/// The mathematical model of an entity marking.
pub struct EntityMarkingV {
    pub marking_character_set: EntityMarkingCharacterSet,
    pub marking_string: Seq<char>,
}

impl View for EntityMarking {
    type V = EntityMarkingV;

    open spec fn view(&self) -> EntityMarkingV {
        EntityMarkingV {
            marking_character_set: self.marking_character_set,
            marking_string: self.marking_string@,
        }
    }
}

/// The character a marking byte decodes to: ASCII bytes stand for themselves,
/// anything else becomes a question mark.
pub open spec fn marking_char(x: u8) -> char {
    if x < 0x80 {
        x as char
    } else {
        '?'
    }
}

/// Strips trailing space and NUL bytes.
pub open spec fn trim_marking(b: Seq<u8>) -> Seq<u8>
    decreases b.len(),
{
    if b.len() == 0 {
        b
    } else if b.last() == 0x20 || b.last() == 0x00 {
        trim_marking(b.drop_last())
    } else {
        b
    }
}

/// `n` space bytes.
pub open spec fn pad_spaces(n: int) -> Seq<u8> {
    Seq::new(n as nat, |i: int| 0x20u8)
}

impl EntityMarkingV {
    /// The text fits eleven ASCII characters and carries no trailing space or
    /// NUL, so that it survives the wire's padding unchanged.
    pub open spec fn wf(self) -> bool {
        &&& self.marking_character_set.wf()
        &&& self.marking_string.len() <= 11
        &&& (forall|j: int|
            0 <= j < self.marking_string.len() ==> '\0' <= #[trigger] self.marking_string[j]
                <= '\u{7f}')
        &&& (self.marking_string.len() > 0 ==> self.marking_string.last() != ' '
            && self.marking_string.last() != '\0')
    }
}

pub open spec fn enc_marking(m: EntityMarkingV) -> Seq<u8> {
    seq![m.marking_character_set.raw()] + m.marking_string.map_values(|c: char| c as u8)
        + pad_spaces(11 - m.marking_string.len())
}

pub open spec fn dec_marking(b: Seq<u8>, i: int) -> EntityMarkingV {
    EntityMarkingV {
        marking_character_set: EntityMarkingCharacterSet::from_raw(b[i]),
        marking_string: trim_marking(b.subrange(i + 1, i + 12)).map_values(
            |x: u8| marking_char(x),
        ),
    }
}

/// What trimming leaves: a prefix of the input whose last byte, if any, is
/// neither space nor NUL.
pub proof fn lemma_trim_marking_props(b: Seq<u8>)
    ensures
        trim_marking(b).len() <= b.len(),
        trim_marking(b) == b.subrange(0, trim_marking(b).len() as int),
        trim_marking(b).len() > 0 ==> trim_marking(b).last() != 0x20 && trim_marking(b).last()
            != 0x00,
    decreases b.len(),
{
    if b.len() == 0 {
        assert(trim_marking(b) =~= b.subrange(0, 0));
    } else if b.last() == 0x20 || b.last() == 0x00 {
        lemma_trim_marking_props(b.drop_last());
        assert(b.drop_last().subrange(0, trim_marking(b).len() as int) =~= b.subrange(
            0,
            trim_marking(b).len() as int,
        ));
    } else {
        assert(trim_marking(b) =~= b.subrange(0, b.len() as int));
    }
}

/// Trimming undoes the space padding that encoding added.
pub proof fn lemma_trim_of_padded(c: Seq<u8>, n: int)
    requires
        n >= 0,
        c.len() == 0 || (c.last() != 0x20 && c.last() != 0x00),
    ensures
        trim_marking(c + pad_spaces(n)) == c,
    decreases n,
{
    if n == 0 {
        assert(c + pad_spaces(0) =~= c);
        if c.len() > 0 {
            assert(trim_marking(c) == c);
        }
    } else {
        let whole = c + pad_spaces(n);
        assert(whole.len() > 0);
        assert(whole.last() == 0x20);
        assert(whole.drop_last() =~= c + pad_spaces(n - 1));
        lemma_trim_of_padded(c, n - 1);
    }
}

pub proof fn lemma_dec_enc_marking(s: Seq<u8>, i: int, m: EntityMarkingV)
    requires
        m.wf(),
        bytes_at(s, i, enc_marking(m)),
    ensures
        dec_marking(s, i) == m,
{
    let chars = m.marking_string;
    let bytes = chars.map_values(|c: char| c as u8);
    let tail = bytes + pad_spaces(11 - chars.len());
    assert(enc_marking(m) =~= seq![m.marking_character_set.raw()] + tail);
    lemma_bytes_at_split(s, i, seq![m.marking_character_set.raw()], tail);
    assert(s.subrange(i, i + 1) =~= seq![m.marking_character_set.raw()]);
    assert(s.subrange(i, i + 1)[0] == s[i]);
    assert(s.subrange(i + 1, i + 12) =~= tail);
    if bytes.len() > 0 {
        let c = chars.last();
        assert(c != ' ' && c != '\0' && c <= '\u{7f}');
        assert(bytes.last() == c as u8);
        assert(bytes.last() != 0x20 && bytes.last() != 0x00);
    }
    lemma_trim_of_padded(bytes, 11 - chars.len());
    assert(trim_marking(s.subrange(i + 1, i + 12)) == bytes);
    assert forall|j: int| 0 <= j < bytes.len() implies marking_char(bytes[j]) == chars[j] by {
        assert('\0' <= chars[j] <= '\u{7f}');
        assert(bytes[j] == chars[j] as u8);
    }
    assert(bytes.map_values(|x: u8| marking_char(x)) =~= chars);
}

pub proof fn lemma_dec_marking_wf(b: Seq<u8>, i: int)
    requires
        0 <= i,
        i + 12 <= b.len(),
    ensures
        dec_marking(b, i).wf(),
        dec_marking(b, i).marking_string.len() <= 11,
{
    let raw = b.subrange(i + 1, i + 12);
    lemma_trim_marking_props(raw);
    let t = trim_marking(raw);
    let chars = t.map_values(|x: u8| marking_char(x));
    assert forall|j: int| 0 <= j < chars.len() implies '\0' <= #[trigger] chars[j] <= '\u{7f}' by {
        assert(chars[j] == marking_char(t[j]));
        if t[j] < 0x80 {
            assert((t[j] as char) < '\u{80}');
        }
    }
    if chars.len() > 0 {
        assert(chars.last() == marking_char(t.last()));
        assert(t.last() != 0x20 && t.last() != 0x00);
        if t.last() < 0x80 {
            assert((t.last() as char) as u8 == t.last());
        }
        assert(marking_char(t.last()) != ' ' && marking_char(t.last()) != '\0');
    }
    assert(dec_marking(b, i).marking_string =~= chars);
}

/// Relies on String::from_utf8: bytes below 0x80 decode to exactly those
/// characters, one per byte.
#[verifier::external_body]
fn ascii_bytes_to_string(b: Vec<u8>) -> (r: String)
    requires
        forall|j: int| 0 <= j < b@.len() ==> b@[j] < 0x80,
    ensures
        r@ == b@.map_values(|x: u8| x as char),
{
    match String::from_utf8(b) {
        Ok(s) => s,
        Err(_) => String::new(),
    }
}

/// Parses the 12-byte marking block, trimming trailing spaces and NULs and
/// substituting a question mark for any non-ASCII byte.
pub fn parse_marking(input: &Vec<u8>, pos: usize, end: usize) -> (r: Result<
    (EntityMarking, usize),
    DisError,
>)
    requires
        end <= input@.len(),
    ensures
        r is Ok <==> pos + MARKING_LEN <= end,
        r matches Ok((m, n)) ==> m@ == dec_marking(input@, pos as int) && n == pos + MARKING_LEN
            && m@.wf(),
        r matches Err(e) ==> e is InsufficientBytes,
{
    let (character_set, p) = match read_u8(input, pos, end) {
        Ok(x) => x,
        Err(e) => {
            return Err(e);
        },
    };
    let (mut raw, p) = match read_bytes(input, p, 11, end) {
        Ok(x) => x,
        Err(e) => {
            return Err(DisError::InsufficientBytes {
                needed: MARKING_LEN,
                available: if pos <= end { end - pos } else { 0 },
            });
        },
    };
    let ghost raw0 = raw@;
    let mut k: usize = raw.len();
    proof {
        assert(raw0.subrange(0, k as int) =~= raw0);
    }
    while k > 0 && (raw[k - 1] == 0x20 || raw[k - 1] == 0x00)
        invariant
            k <= raw@.len(),
            raw@ == raw0,
            trim_marking(raw0) == trim_marking(raw0.subrange(0, k as int)),
        decreases k,
    {
        proof {
            assert(raw0.subrange(0, k as int).drop_last() =~= raw0.subrange(0, k - 1));
        }
        k = k - 1;
    }
    proof {
        assert(raw0.subrange(0, k as int).len() == k);
        if k > 0 {
            assert(trim_marking(raw0.subrange(0, k as int)) == raw0.subrange(0, k as int));
        } else {
            assert(trim_marking(raw0.subrange(0, 0)) =~= raw0.subrange(0, 0));
        }
    }
    raw.truncate(k);
    assert(raw@ == trim_marking(raw0));
    let mut subbed: Vec<u8> = Vec::new();
    let mut j: usize = 0;
    while j < raw.len()
        invariant
            j <= raw@.len(),
            subbed@.len() == j,
            forall|q: int| 0 <= q < j ==> subbed@[q] < 0x80,
            forall|q: int| 0 <= q < j ==> (#[trigger] subbed@[q]) as char == marking_char(raw@[q]),
        decreases raw@.len() - j,
    {
        let x = raw[j];
        if x < 0x80 {
            subbed.push(x);
        } else {
            subbed.push(0x3f);
        }
        j = j + 1;
    }
    let ghost subbed0 = subbed@;
    let marking_string = ascii_bytes_to_string(subbed);
    proof {
        assert(marking_string@ =~= trim_marking(raw0).map_values(|x: u8| marking_char(x))) by {
            assert forall|q: int| 0 <= q < subbed0.len() implies marking_string@[q] == marking_char(
                trim_marking(raw0)[q],
            ) by {
                assert(marking_string@[q] == subbed0[q] as char);
            }
        }
        lemma_dec_marking_wf(input@, pos as int);
        assert(raw0 =~= input@.subrange(pos + 1, pos + 12));
    }
    Ok((EntityMarking {
        marking_character_set: EntityMarkingCharacterSet::from_u8(character_set),
        marking_string,
    }, p))
}

/// Serializes the 12-byte marking block, right-padding the text with spaces.
pub fn write_marking(out: &mut Vec<u8>, m: &EntityMarking)
    requires
        m@.wf(),
    ensures
        final(out)@ == old(out)@ + enc_marking(m@),
{
    out.push(m.marking_character_set.to_u8());
    let s = m.marking_string.as_str();
    let bytes = s.as_bytes_vec();
    proof {
        broadcast use vstd::string::is_ascii_spec_bytes;

        assert(vstd::utf8::is_ascii_chars(s@));
        assert(vstd::string::is_ascii(s));
        assert forall|j: int| 0 <= j < bytes@.len() implies bytes@[j] == m.marking_string@[j] as u8
            by {}
        assert(bytes@ =~= m.marking_string@.map_values(|c: char| c as u8));
    }
    write_bytes(out, &bytes);
    let mut j: usize = bytes.len();
    while j < 11
        invariant
            bytes@.len() <= j <= 11,
            out@ =~= old(out)@ + seq![m@.marking_character_set.raw()] + bytes@ + pad_spaces(
                j - bytes@.len(),
            ),
        decreases 11 - j,
    {
        out.push(0x20u8);
        proof {
            assert(out@ =~= old(out)@ + seq![m@.marking_character_set.raw()] + bytes@ + pad_spaces(
                j + 1 - bytes@.len(),
            ));
        }
        j = j + 1;
    }
    assert(final(out)@ =~= old(out)@ + enc_marking(m@));
}

// ---------------------------------------------------------------------------
// Dead reckoning parameters
// ---------------------------------------------------------------------------

pub const DR_PARAMETERS_LEN: usize = 40;

/// Dead reckoning parameters: the algorithm code, fifteen opaque bytes, and
/// the linear acceleration and angular velocity triples.
#[derive(Clone, Debug, PartialEq, Eq)]
pub struct DrParameters {
    pub algorithm: DrAlgorithm,
    pub other_parameters: Vec<u8>,
    pub linear_acceleration: VectorF32,
    pub angular_velocity: VectorF32,
}

/// The mathematical model of the dead reckoning parameters.
pub struct DrParametersV {
    pub algorithm: DrAlgorithm,
    pub other_parameters: Seq<u8>,
    pub linear_acceleration: VectorF32,
    pub angular_velocity: VectorF32,
}

impl View for DrParameters {
    type V = DrParametersV;

    open spec fn view(&self) -> DrParametersV {
        DrParametersV {
            algorithm: self.algorithm,
            other_parameters: self.other_parameters@,
            linear_acceleration: self.linear_acceleration,
            angular_velocity: self.angular_velocity,
        }
    }
}

impl DrParametersV {
    pub open spec fn wf(self) -> bool {
        self.algorithm.wf() && self.other_parameters.len() == 15
    }
}

pub open spec fn enc_dr_parameters(v: DrParametersV) -> Seq<u8> {
    seq![v.algorithm.raw()] + v.other_parameters + enc_vector_f32(v.linear_acceleration)
        + enc_vector_f32(v.angular_velocity)
}

pub open spec fn dec_dr_parameters(b: Seq<u8>, i: int) -> DrParametersV {
    DrParametersV {
        algorithm: DrAlgorithm::from_raw(b[i]),
        other_parameters: b.subrange(i + 1, i + 16),
        linear_acceleration: dec_vector_f32(b, i + 16),
        angular_velocity: dec_vector_f32(b, i + 28),
    }
}

pub proof fn lemma_dec_enc_dr_parameters(s: Seq<u8>, i: int, v: DrParametersV)
    requires
        v.wf(),
        bytes_at(s, i, enc_dr_parameters(v)),
    ensures
        dec_dr_parameters(s, i) == v,
{
    lemma_bytes_at_split(
        s,
        i,
        seq![v.algorithm.raw()] + v.other_parameters + enc_vector_f32(v.linear_acceleration),
        enc_vector_f32(v.angular_velocity),
    );
    lemma_bytes_at_split(
        s,
        i,
        seq![v.algorithm.raw()] + v.other_parameters,
        enc_vector_f32(v.linear_acceleration),
    );
    lemma_bytes_at_split(s, i, seq![v.algorithm.raw()], v.other_parameters);
    assert(s.subrange(i, i + 1) =~= seq![v.algorithm.raw()]);
    assert(s.subrange(i, i + 1)[0] == s[i]);
    assert(s.subrange(i + 1, i + 16) =~= v.other_parameters);
    lemma_dec_enc_vector_f32(s, i + 16, v.linear_acceleration);
    lemma_dec_enc_vector_f32(s, i + 28, v.angular_velocity);
}

pub fn parse_dr_parameters(input: &Vec<u8>, pos: usize, end: usize) -> (r: Result<
    (DrParameters, usize),
    DisError,
>)
    requires
        end <= input@.len(),
    ensures
        r is Ok <==> pos + DR_PARAMETERS_LEN <= end,
        r matches Ok((v, n)) ==> v@ == dec_dr_parameters(input@, pos as int) && n == pos
            + DR_PARAMETERS_LEN && v@.wf(),
        r matches Err(e) ==> e is InsufficientBytes,
{
    let (algorithm, p) = match read_u8(input, pos, end) {
        Ok(x) => x,
        Err(e) => {
            return Err(DisError::InsufficientBytes {
                needed: DR_PARAMETERS_LEN,
                available: if pos <= end { end - pos } else { 0 },
            });
        },
    };
    let (other_parameters, p) = match read_bytes(input, p, 15, end) {
        Ok(x) => x,
        Err(e) => {
            return Err(DisError::InsufficientBytes {
                needed: DR_PARAMETERS_LEN,
                available: if pos <= end { end - pos } else { 0 },
            });
        },
    };
    let (linear_acceleration, p) = match parse_vector_f32(input, p, end) {
        Ok(x) => x,
        Err(e) => {
            return Err(DisError::InsufficientBytes {
                needed: DR_PARAMETERS_LEN,
                available: if pos <= end { end - pos } else { 0 },
            });
        },
    };
    let (angular_velocity, p) = match parse_vector_f32(input, p, end) {
        Ok(x) => x,
        Err(e) => {
            return Err(DisError::InsufficientBytes {
                needed: DR_PARAMETERS_LEN,
                available: if pos <= end { end - pos } else { 0 },
            });
        },
    };
    Ok((DrParameters {
        algorithm: DrAlgorithm::from_u8(algorithm),
        other_parameters,
        linear_acceleration,
        angular_velocity,
    }, p))
}

pub fn write_dr_parameters(out: &mut Vec<u8>, v: &DrParameters)
    ensures
        final(out)@ == old(out)@ + enc_dr_parameters(v@),
{
    out.push(v.algorithm.to_u8());
    write_bytes(out, &v.other_parameters);
    write_vector_f32(out, &v.linear_acceleration);
    write_vector_f32(out, &v.angular_velocity);
    assert(final(out)@ =~= old(out)@ + enc_dr_parameters(v@));
}

// ---------------------------------------------------------------------------
// Entity capabilities
// ---------------------------------------------------------------------------

pub const CAPABILITIES_LEN: usize = 4;

/// The 32-bit capabilities field: four flags followed by 28 zero bits.
#[derive(Clone, Copy, Debug, PartialEq, Eq, Structural, Default)]
pub struct EntityCapabilities {
    pub ammunition_supply: bool,
    pub fuel_supply: bool,
    pub recovery: bool,
    pub repair: bool,
}

pub open spec fn bool_bit(b: bool) -> u8 {
    if b {
        1u8
    } else {
        0u8
    }
}

pub open spec fn enc_capabilities(c: EntityCapabilities) -> Seq<u8> {
    seq![
        (bool_bit(c.ammunition_supply) << 7) | (bool_bit(c.fuel_supply) << 6) | (bool_bit(
            c.recovery,
        ) << 5) | (bool_bit(c.repair) << 4),
        0u8,
        0u8,
        0u8,
    ]
}

pub open spec fn dec_capabilities(b: Seq<u8>, i: int) -> EntityCapabilities {
    EntityCapabilities {
        ammunition_supply: (b[i] >> 7) & 1 == 1,
        fuel_supply: (b[i] >> 6) & 1 == 1,
        recovery: (b[i] >> 5) & 1 == 1,
        repair: (b[i] >> 4) & 1 == 1,
    }
}

pub proof fn lemma_dec_enc_capabilities(s: Seq<u8>, i: int, c: EntityCapabilities)
    requires
        bytes_at(s, i, enc_capabilities(c)),
    ensures
        dec_capabilities(s, i) == c,
{
    let a = bool_bit(c.ammunition_supply);
    let f = bool_bit(c.fuel_supply);
    let r = bool_bit(c.recovery);
    let p = bool_bit(c.repair);
    assert(s[i] == (a << 7) | (f << 6) | (r << 5) | (p << 4));
    assert(a < 2 && f < 2 && r < 2 && p < 2 ==> {
        let e = (a << 7) | (f << 6) | (r << 5) | (p << 4);
        ((e >> 7) & 1) == a && ((e >> 6) & 1) == f && ((e >> 5) & 1) == r && ((e >> 4) & 1) == p
    }) by (bit_vector);
}

pub fn parse_capabilities(input: &Vec<u8>, pos: usize, end: usize) -> (r: Result<
    (EntityCapabilities, usize),
    DisError,
>)
    requires
        end <= input@.len(),
    ensures
        r is Ok <==> pos + CAPABILITIES_LEN <= end,
        r matches Ok((v, n)) ==> v == dec_capabilities(input@, pos as int) && n == pos
            + CAPABILITIES_LEN,
        r matches Err(e) ==> e is InsufficientBytes,
{
    if pos <= end && end - pos >= CAPABILITIES_LEN {
        let b0 = input[pos];
        Ok((EntityCapabilities {
            ammunition_supply: (b0 >> 7) & 1 == 1,
            fuel_supply: (b0 >> 6) & 1 == 1,
            recovery: (b0 >> 5) & 1 == 1,
            repair: (b0 >> 4) & 1 == 1,
        }, pos + CAPABILITIES_LEN))
    } else {
        Err(DisError::InsufficientBytes {
            needed: CAPABILITIES_LEN,
            available: if pos <= end { end - pos } else { 0 },
        })
    }
}

pub fn write_capabilities(out: &mut Vec<u8>, c: &EntityCapabilities)
    ensures
        final(out)@ == old(out)@ + enc_capabilities(*c),
{
    let a: u8 = if c.ammunition_supply {
        1
    } else {
        0
    };
    let f: u8 = if c.fuel_supply {
        1
    } else {
        0
    };
    let r: u8 = if c.recovery {
        1
    } else {
        0
    };
    let p: u8 = if c.repair {
        1
    } else {
        0
    };
    out.push((a << 7) | (f << 6) | (r << 5) | (p << 4));
    out.push(0u8);
    out.push(0u8);
    out.push(0u8);
    assert(final(out)@ =~= old(out)@ + enc_capabilities(*c));
}

// ---------------------------------------------------------------------------
// Articulation parameters
// ---------------------------------------------------------------------------

pub const ARTICULATION_LEN: usize = 16;

/// The articulated-part variant: a type class with its low five bits clear,
/// and a type metric below 32, packed together into one 32-bit field.
#[derive(Clone, Copy, Debug, PartialEq, Eq, Structural)]
pub struct ArticulatedParts {
    pub type_metric: ArticulatedPartsTypeMetric,
    pub type_class: ArticulatedPartsTypeClass,
}

/// The 32-bit parameter-type field, interpreted per the designator.
#[derive(Clone, Copy, Debug, PartialEq, Eq, Structural)]
pub enum ParameterTypeVariant {
    AttachedParts(u32),
    ArticulatedParts(ArticulatedParts),
}

/// One 16-byte articulation parameter record. The 64-bit parameter value is
/// kept as the raw bit pattern of the wire's floating-point field.
#[derive(Clone, Copy, Debug, PartialEq, Eq, Structural)]
pub struct ArticulationParameter {
    pub parameter_type_designator: ApTypeDesignator,
    pub parameter_change_indicator: u8,
    pub articulation_attachment_id: u16,
    pub parameter_type_variant: ParameterTypeVariant,
    pub articulation_parameter_value: u64,
}

impl ArticulationParameter {
    /// The variant agrees with the designator, and an articulated part splits
    /// the 32-bit field as class plus metric.
    pub open spec fn wf(self) -> bool {
        &&& self.parameter_type_designator.wf()
        &&& match self.parameter_type_variant {
            ParameterTypeVariant::ArticulatedParts(ap) => {
                &&& self.parameter_type_designator == ApTypeDesignator::Articulated
                &&& ap.type_metric.wf()
                &&& ap.type_metric.raw() < 32
                &&& ap.type_class.wf()
                &&& ap.type_class.raw() & 0x1f == 0
            },
            ParameterTypeVariant::AttachedParts(_) => self.parameter_type_designator
                != ApTypeDesignator::Articulated,
        }
    }
}

pub open spec fn enc_parameter_type(v: ParameterTypeVariant) -> Seq<u8> {
    match v {
        ParameterTypeVariant::AttachedParts(x) => enc_u32(x),
        ParameterTypeVariant::ArticulatedParts(ap) => enc_u32(
            ap.type_class.raw() | ap.type_metric.raw(),
        ),
    }
}

pub open spec fn enc_articulation(p: ArticulationParameter) -> Seq<u8> {
    seq![p.parameter_type_designator.raw(), p.parameter_change_indicator] + enc_u16(
        p.articulation_attachment_id,
    ) + enc_parameter_type(p.parameter_type_variant) + enc_u64(p.articulation_parameter_value)
}

pub open spec fn dec_articulation(b: Seq<u8>, i: int) -> ArticulationParameter {
    let designator = ApTypeDesignator::from_raw(b[i]);
    let ptype = dec_u32(b, i + 4);
    ArticulationParameter {
        parameter_type_designator: designator,
        parameter_change_indicator: b[i + 1],
        articulation_attachment_id: dec_u16(b, i + 2),
        parameter_type_variant: if designator == ApTypeDesignator::Articulated {
            ParameterTypeVariant::ArticulatedParts(
                ArticulatedParts {
                    type_metric: ArticulatedPartsTypeMetric::from_raw(ptype & 0x1f),
                    type_class: ArticulatedPartsTypeClass::from_raw(ptype & 0xffff_ffe0),
                },
            )
        } else {
            ParameterTypeVariant::AttachedParts(ptype)
        },
        articulation_parameter_value: dec_u64(b, i + 8),
    }
}

pub proof fn lemma_dec_articulation_wf(b: Seq<u8>, i: int)
    ensures
        dec_articulation(b, i).wf(),
{
    let ptype = dec_u32(b, i + 4);
    assert((ptype & 0x1f) < 32 && ((ptype & 0xffff_ffe0) & 0x1f) == 0) by (bit_vector);
}

pub proof fn lemma_dec_enc_articulation(s: Seq<u8>, i: int, p: ArticulationParameter)
    requires
        p.wf(),
        bytes_at(s, i, enc_articulation(p)),
    ensures
        dec_articulation(s, i) == p,
{
    let head = seq![p.parameter_type_designator.raw(), p.parameter_change_indicator];
    lemma_bytes_at_split(
        s,
        i,
        head + enc_u16(p.articulation_attachment_id) + enc_parameter_type(p.parameter_type_variant),
        enc_u64(p.articulation_parameter_value),
    );
    lemma_bytes_at_split(
        s,
        i,
        head + enc_u16(p.articulation_attachment_id),
        enc_parameter_type(p.parameter_type_variant),
    );
    lemma_bytes_at_split(s, i, head, enc_u16(p.articulation_attachment_id));
    assert(s[i] == p.parameter_type_designator.raw());
    assert(s[i + 1] == p.parameter_change_indicator);
    lemma_dec_enc_u16(s, i + 2, p.articulation_attachment_id);
    lemma_dec_enc_u64(s, i + 8, p.articulation_parameter_value);
    match p.parameter_type_variant {
        ParameterTypeVariant::ArticulatedParts(ap) => {
            let c = ap.type_class.raw();
            let m = ap.type_metric.raw();
            lemma_dec_enc_u32(s, i + 4, c | m);
            assert(m < 32 && (c & 0x1f) == 0 ==> ((c | m) & 0x1f) == m && ((c | m) & 0xffff_ffe0)
                == c) by (bit_vector);
        },
        ParameterTypeVariant::AttachedParts(x) => {
            lemma_dec_enc_u32(s, i + 4, x);
        },
    }
}

pub fn parse_articulation(input: &Vec<u8>, pos: usize, end: usize) -> (r: Result<
    (ArticulationParameter, usize),
    DisError,
>)
    requires
        end <= input@.len(),
    ensures
        r is Ok <==> pos + ARTICULATION_LEN <= end,
        r matches Ok((v, n)) ==> v == dec_articulation(input@, pos as int) && n == pos
            + ARTICULATION_LEN && v.wf(),
        r matches Err(e) ==> e is InsufficientBytes,
{
    if pos <= end && end - pos >= ARTICULATION_LEN {
        proof {
            lemma_dec_articulation_wf(input@, pos as int);
        }
        let designator = ApTypeDesignator::from_u8(input[pos]);
        let parameter_change_indicator = input[pos + 1];
        let articulation_attachment_id = ((input[pos + 2] as u16) << 8) | (input[pos + 3] as u16);
        let ptype = ((input[pos + 4] as u32) << 24) | ((input[pos + 5] as u32) << 16) | ((input[pos
            + 6] as u32) << 8) | (input[pos + 7] as u32);
        let parameter_type_variant = if matches!(designator, ApTypeDesignator::Articulated) {
            ParameterTypeVariant::ArticulatedParts(
                ArticulatedParts {
                    type_metric: ArticulatedPartsTypeMetric::from_u32(ptype & 0x1f),
                    type_class: ArticulatedPartsTypeClass::from_u32(ptype & 0xffff_ffe0),
                },
            )
        } else {
            ParameterTypeVariant::AttachedParts(ptype)
        };
        let value = ((input[pos + 8] as u64) << 56) | ((input[pos + 9] as u64) << 48) | ((input[pos
            + 10] as u64) << 40) | ((input[pos + 11] as u64) << 32) | ((input[pos
            + 12] as u64) << 24) | ((input[pos + 13] as u64) << 16) | ((input[pos
            + 14] as u64) << 8) | (input[pos + 15] as u64);
        Ok((ArticulationParameter {
            parameter_type_designator: designator,
            parameter_change_indicator,
            articulation_attachment_id,
            parameter_type_variant,
            articulation_parameter_value: value,
        }, pos + ARTICULATION_LEN))
    } else {
        Err(DisError::InsufficientBytes {
            needed: ARTICULATION_LEN,
            available: if pos <= end { end - pos } else { 0 },
        })
    }
}

pub fn write_articulation(out: &mut Vec<u8>, p: &ArticulationParameter)
    ensures
        final(out)@ == old(out)@ + enc_articulation(*p),
{
    out.push(p.parameter_type_designator.to_u8());
    out.push(p.parameter_change_indicator);
    write_u16(out, p.articulation_attachment_id);
    match &p.parameter_type_variant {
        ParameterTypeVariant::AttachedParts(x) => {
            write_u32(out, *x);
        },
        ParameterTypeVariant::ArticulatedParts(ap) => {
            write_u32(out, ap.type_class.to_u32() | ap.type_metric.to_u32());
        },
    }
    write_u64(out, p.articulation_parameter_value);
    assert(final(out)@ =~= old(out)@ + enc_articulation(*p));
}


// ---------------------------------------------------------------------------
// The Entity State body
// ---------------------------------------------------------------------------

pub const ENTITY_STATE_BASE_LEN: usize = 132;

/// The Entity State PDU body.
#[derive(Clone, Debug, PartialEq, Eq)]
pub struct EntityState {
    pub entity_id: EntityId,
    pub force_id: ForceId,
    pub entity_type: EntityType,
    pub alternative_entity_type: EntityType,
    pub entity_linear_velocity: VectorF32,
    pub entity_location: Location,
    pub entity_orientation: Orientation,
    pub entity_appearance: Appearance,
    pub dead_reckoning_parameters: DrParameters,
    pub entity_marking: EntityMarking,
    pub entity_capabilities: EntityCapabilities,
    pub articulation_parameter: Option<Vec<ArticulationParameter>>,
}

/// The mathematical model of an Entity State body.
pub struct EntityStateV {
    pub entity_id: EntityId,
    pub force_id: ForceId,
    pub entity_type: EntityType,
    pub alternative_entity_type: EntityType,
    pub entity_linear_velocity: VectorF32,
    pub entity_location: Location,
    pub entity_orientation: Orientation,
    pub entity_appearance: Appearance,
    pub dead_reckoning_parameters: DrParametersV,
    pub entity_marking: EntityMarkingV,
    pub entity_capabilities: EntityCapabilities,
    pub articulation_parameter: Option<Seq<ArticulationParameter>>,
}

impl View for EntityState {
    type V = EntityStateV;

    open spec fn view(&self) -> EntityStateV {
        EntityStateV {
            entity_id: self.entity_id,
            force_id: self.force_id,
            entity_type: self.entity_type,
            alternative_entity_type: self.alternative_entity_type,
            entity_linear_velocity: self.entity_linear_velocity,
            entity_location: self.entity_location,
            entity_orientation: self.entity_orientation,
            entity_appearance: self.entity_appearance,
            dead_reckoning_parameters: self.dead_reckoning_parameters@,
            entity_marking: self.entity_marking@,
            entity_capabilities: self.entity_capabilities,
            articulation_parameter: match self.articulation_parameter {
                Some(ref v) => Some(v@),
                None => None,
            },
        }
    }
}

/// The articulation records as a sequence, empty when none are carried.
pub open spec fn art_seq(e: EntityStateV) -> Seq<ArticulationParameter> {
    match e.articulation_parameter {
        Some(s) => s,
        None => Seq::empty(),
    }
}

impl EntityStateV {
    /// Every enumerated field is well-formed, the specific appearance matches
    /// the entity type's (kind, domain) pair, and the articulation list is
    /// absent rather than empty and fits the one-byte count.
    pub open spec fn wf(self) -> bool {
        &&& self.force_id.wf()
        &&& self.entity_type.wf()
        &&& self.alternative_entity_type.wf()
        &&& self.entity_appearance.wf()
        &&& self.entity_appearance.specific_appearance.matches_type(
            self.entity_type.kind,
            self.entity_type.domain,
        )
        &&& self.dead_reckoning_parameters.wf()
        &&& self.entity_marking.wf()
        &&& match self.articulation_parameter {
            Some(s) => {
                &&& 0 < s.len() <= 255
                &&& (forall|k: int| 0 <= k < s.len() ==> (#[trigger] s[k]).wf())
            },
            None => true,
        }
    }

    /// The bytes this body occupies on the wire.
    pub open spec fn body_len(self) -> int {
        132 + 16 * art_seq(self).len() as int
    }
}

/// The articulation records, one 16-byte encoding after the other.
pub open spec fn enc_art_list(s: Seq<ArticulationParameter>) -> Seq<u8>
    decreases s.len(),
{
    if s.len() == 0 {
        Seq::empty()
    } else {
        enc_articulation(s[0]) + enc_art_list(s.drop_first())
    }
}

pub proof fn lemma_enc_art_list_len(s: Seq<ArticulationParameter>)
    ensures
        enc_art_list(s).len() == 16 * s.len(),
    decreases s.len(),
{
    if s.len() > 0 {
        lemma_enc_art_list_len(s.drop_first());
    }
}

pub proof fn lemma_enc_art_list_push(s: Seq<ArticulationParameter>, x: ArticulationParameter)
    ensures
        enc_art_list(s.push(x)) == enc_art_list(s) + enc_articulation(x),
    decreases s.len(),
{
    if s.len() == 0 {
        assert(s.push(x)[0] == x);
        assert(s.push(x).drop_first() =~= Seq::<ArticulationParameter>::empty());
        assert(enc_art_list(s.push(x).drop_first()) == Seq::<u8>::empty());
        assert(enc_art_list(s.push(x)) == enc_articulation(x) + Seq::<u8>::empty());
        assert(enc_articulation(x) + Seq::<u8>::empty() =~= Seq::<u8>::empty() + enc_articulation(
            x,
        ));
    } else {
        assert(s.push(x)[0] == s[0]);
        assert(s.push(x).drop_first() =~= s.drop_first().push(x));
        lemma_enc_art_list_push(s.drop_first(), x);
        assert(enc_art_list(s.push(x)) == enc_articulation(s[0]) + (enc_art_list(s.drop_first())
            + enc_articulation(x)));
        assert(enc_articulation(s[0]) + (enc_art_list(s.drop_first()) + enc_articulation(x)) =~= (
        enc_articulation(s[0]) + enc_art_list(s.drop_first())) + enc_articulation(x));
    }
}

pub proof fn lemma_dec_enc_art_list(s: Seq<u8>, j: int, arts: Seq<ArticulationParameter>)
    requires
        forall|k: int| 0 <= k < arts.len() ==> (#[trigger] arts[k]).wf(),
        bytes_at(s, j, enc_art_list(arts)),
    ensures
        forall|k: int|
            0 <= k < arts.len() ==> dec_articulation(s, j + 16 * k) == (#[trigger] arts[k]),
    decreases arts.len(),
{
    if arts.len() > 0 {
        lemma_enc_art_list_len(arts.drop_first());
        lemma_bytes_at_split(s, j, enc_articulation(arts[0]), enc_art_list(arts.drop_first()));
        lemma_dec_enc_articulation(s, j, arts[0]);
        lemma_dec_enc_art_list(s, j + 16, arts.drop_first());
        assert forall|k: int|
            0 <= k < arts.len() implies dec_articulation(s, j + 16 * k) == (#[trigger] arts[k]) by {
            if k > 0 {
                assert(arts.drop_first()[k - 1] == arts[k]);
                assert(dec_articulation(s, j + 16 + 16 * (k - 1)) == arts.drop_first()[k - 1]);
                assert(j + 16 + 16 * (k - 1) == j + 16 * k);
            }
        }
    }
}

pub open spec fn enc_entity_state(e: EntityStateV) -> Seq<u8> {
    enc_entity_id(e.entity_id) + seq![e.force_id.raw(), art_seq(e).len() as u8] + enc_entity_type(
        e.entity_type,
    ) + enc_entity_type(e.alternative_entity_type) + enc_vector_f32(e.entity_linear_velocity)
        + enc_location(e.entity_location) + enc_orientation(e.entity_orientation) + enc_appearance(
        e.entity_appearance,
    ) + enc_dr_parameters(e.dead_reckoning_parameters) + enc_marking(e.entity_marking)
        + enc_capabilities(e.entity_capabilities) + enc_art_list(art_seq(e))
}

pub open spec fn dec_entity_state(b: Seq<u8>, i: int) -> EntityStateV {
    let et = dec_entity_type(b, i + 8);
    let count = b[i + 7];
    EntityStateV {
        entity_id: dec_entity_id(b, i),
        force_id: ForceId::from_raw(b[i + 6]),
        entity_type: et,
        alternative_entity_type: dec_entity_type(b, i + 16),
        entity_linear_velocity: dec_vector_f32(b, i + 24),
        entity_location: dec_location(b, i + 36),
        entity_orientation: dec_orientation(b, i + 60),
        entity_appearance: dec_appearance(b, i + 72, et.kind, et.domain),
        dead_reckoning_parameters: dec_dr_parameters(b, i + 76),
        entity_marking: dec_marking(b, i + 116),
        entity_capabilities: dec_capabilities(b, i + 128),
        articulation_parameter: if count > 0 {
            Some(Seq::new(count as nat, |k: int| dec_articulation(b, i + 132 + 16 * k)))
        } else {
            None
        },
    }
}

/// The bytes the Entity State body starting at `i` occupies: the fixed prefix
/// plus the articulation records that the count byte announces.
pub open spec fn es_wire_len(b: Seq<u8>, i: int) -> int {
    132 + 16 * (b[i + 7] as int)
}

pub proof fn lemma_dec_entity_state_wf(b: Seq<u8>, i: int)
    requires
        0 <= i,
        i + 132 <= b.len(),
    ensures
        dec_entity_state(b, i).wf(),
        dec_entity_state(b, i).body_len() == es_wire_len(b, i),
{
    crate::appearance::lemma_dec_specific_appearance_wf(
        b,
        i + 74,
        dec_entity_type(b, i + 8).kind,
        dec_entity_type(b, i + 8).domain,
    );
    crate::appearance::lemma_dec_general_appearance_wf(b, i + 72);
    lemma_dec_marking_wf(b, i + 116);
    let count = b[i + 7];
    if count > 0 {
        let arts = Seq::new(count as nat, |k: int| dec_articulation(b, i + 132 + 16 * k));
        assert forall|k: int| 0 <= k < arts.len() implies (#[trigger] arts[k]).wf() by {
            lemma_dec_articulation_wf(b, i + 132 + 16 * k);
        }
    }
}

#[verifier::rlimit(100)]
pub proof fn lemma_dec_enc_entity_state(s: Seq<u8>, i: int, e: EntityStateV)
    requires
        e.wf(),
        bytes_at(s, i, enc_entity_state(e)),
    ensures
        dec_entity_state(s, i) == e,
        es_wire_len(s, i) == e.body_len(),
{
    let arts = art_seq(e);
    let count: u8 = arts.len() as u8;
    let c0 = enc_entity_id(e.entity_id);
    let c1 = seq![e.force_id.raw(), count];
    let c2 = enc_entity_type(e.entity_type);
    let c3 = enc_entity_type(e.alternative_entity_type);
    let c4 = enc_vector_f32(e.entity_linear_velocity);
    let c5 = enc_location(e.entity_location);
    let c6 = enc_orientation(e.entity_orientation);
    let c7 = enc_appearance(e.entity_appearance);
    let c8 = enc_dr_parameters(e.dead_reckoning_parameters);
    let c9 = enc_marking(e.entity_marking);
    let c10 = enc_capabilities(e.entity_capabilities);
    let c11 = enc_art_list(arts);
    lemma_enc_art_list_len(arts);
    assert(c9.len() == 12);
    lemma_bytes_at_split(s, i, c0 + c1 + c2 + c3 + c4 + c5 + c6 + c7 + c8 + c9 + c10, c11);
    lemma_bytes_at_split(s, i, c0 + c1 + c2 + c3 + c4 + c5 + c6 + c7 + c8 + c9, c10);
    lemma_bytes_at_split(s, i, c0 + c1 + c2 + c3 + c4 + c5 + c6 + c7 + c8, c9);
    lemma_bytes_at_split(s, i, c0 + c1 + c2 + c3 + c4 + c5 + c6 + c7, c8);
    lemma_bytes_at_split(s, i, c0 + c1 + c2 + c3 + c4 + c5 + c6, c7);
    lemma_bytes_at_split(s, i, c0 + c1 + c2 + c3 + c4 + c5, c6);
    lemma_bytes_at_split(s, i, c0 + c1 + c2 + c3 + c4, c5);
    lemma_bytes_at_split(s, i, c0 + c1 + c2 + c3, c4);
    lemma_bytes_at_split(s, i, c0 + c1 + c2, c3);
    lemma_bytes_at_split(s, i, c0 + c1, c2);
    lemma_bytes_at_split(s, i, c0, c1);
    lemma_dec_enc_entity_id(s, i, e.entity_id);
    assert(s.subrange(i + 6, i + 8) =~= c1);
    assert(s.subrange(i + 6, i + 8)[0] == s[i + 6]);
    assert(s.subrange(i + 6, i + 8)[1] == s[i + 7]);
    assert(s[i + 6] == e.force_id.raw());
    assert(s[i + 7] == count);
    lemma_dec_enc_entity_type(s, i + 8, e.entity_type);
    lemma_dec_enc_entity_type(s, i + 16, e.alternative_entity_type);
    lemma_dec_enc_vector_f32(s, i + 24, e.entity_linear_velocity);
    lemma_dec_enc_location(s, i + 36, e.entity_location);
    lemma_dec_enc_orientation(s, i + 60, e.entity_orientation);
    lemma_dec_enc_appearance(
        s,
        i + 72,
        e.entity_appearance,
        e.entity_type.kind,
        e.entity_type.domain,
    );
    lemma_dec_enc_dr_parameters(s, i + 76, e.dead_reckoning_parameters);
    lemma_dec_enc_marking(s, i + 116, e.entity_marking);
    lemma_dec_enc_capabilities(s, i + 128, e.entity_capabilities);
    lemma_dec_enc_art_list(s, i + 132, arts);
    match e.articulation_parameter {
        Some(aa) => {
            assert(0 < aa.len() <= 255);
            assert(count as int == aa.len());
            assert(Seq::new(count as nat, |k: int| dec_articulation(s, i + 132 + 16 * k)) =~= aa);
        },
        None => {
            assert(count == 0);
        },
    }
}

/// Parses an Entity State body at `pos`, including the articulation records
/// announced by the count byte.
#[verifier::rlimit(100)]
pub fn parse_entity_state_body(input: &Vec<u8>, pos: usize, end: usize) -> (r: Result<
    (EntityState, usize),
    DisError,
>)
    requires
        end <= input@.len(),
    ensures
        r is Ok <==> pos + 132 <= end && pos + es_wire_len(input@, pos as int) <= end,
        r matches Ok((v, n)) ==> v@ == dec_entity_state(input@, pos as int) && n == pos
            + es_wire_len(input@, pos as int) && v@.wf(),
        r matches Err(e) ==> e is InsufficientBytes,
{
    let (entity_id, p) = match parse_entity_id(input, pos, end) {
        Ok(x) => x,
        Err(e) => {
            return Err(e);
        },
    };
    let (force_raw, p) = match read_u8(input, p, end) {
        Ok(x) => x,
        Err(e) => {
            return Err(e);
        },
    };
    let (count, p) = match read_u8(input, p, end) {
        Ok(x) => x,
        Err(e) => {
            return Err(e);
        },
    };
    let (entity_type, p) = match parse_entity_type(input, p, end) {
        Ok(x) => x,
        Err(e) => {
            return Err(e);
        },
    };
    let (alternative_entity_type, p) = match parse_entity_type(input, p, end) {
        Ok(x) => x,
        Err(e) => {
            return Err(e);
        },
    };
    let (entity_linear_velocity, p) = match parse_vector_f32(input, p, end) {
        Ok(x) => x,
        Err(e) => {
            return Err(e);
        },
    };
    let (entity_location, p) = match parse_location(input, p, end) {
        Ok(x) => x,
        Err(e) => {
            return Err(e);
        },
    };
    let (entity_orientation, p) = match parse_orientation(input, p, end) {
        Ok(x) => x,
        Err(e) => {
            return Err(e);
        },
    };
    let (entity_appearance, p) = match parse_appearance(
        input,
        p,
        end,
        entity_type.kind,
        entity_type.domain,
    ) {
        Ok(x) => x,
        Err(e) => {
            return Err(e);
        },
    };
    let (dead_reckoning_parameters, p) = match parse_dr_parameters(input, p, end) {
        Ok(x) => x,
        Err(e) => {
            return Err(e);
        },
    };
    let (entity_marking, p) = match parse_marking(input, p, end) {
        Ok(x) => x,
        Err(e) => {
            return Err(e);
        },
    };
    let (entity_capabilities, p) = match parse_capabilities(input, p, end) {
        Ok(x) => x,
        Err(e) => {
            return Err(e);
        },
    };
    assert(p == pos + 132);
    let mut arts: Vec<ArticulationParameter> = Vec::new();
    let mut k: usize = 0;
    let mut p = p;
    while k < count as usize
        invariant
            end <= input@.len(),
            pos + 132 <= end,
            count == input@[pos as int + 7],
            k <= count as usize,
            p == pos + 132 + 16 * k,
            p <= end,
            arts@.len() == k,
            forall|q: int|
                0 <= q < k ==> (#[trigger] arts@[q]) == dec_articulation(
                    input@,
                    pos + 132 + 16 * q,
                ) && arts@[q].wf(),
        decreases count as usize - k,
    {
        let (a, p2) = match parse_articulation(input, p, end) {
            Ok(x) => x,
            Err(e) => {
                return Err(e);
            },
        };
        arts.push(a);
        p = p2;
        k = k + 1;
    }
    let articulation_parameter = if count > 0 {
        Some(arts)
    } else {
        None
    };
    let es = EntityState {
        entity_id,
        force_id: ForceId::from_u8(force_raw),
        entity_type,
        alternative_entity_type,
        entity_linear_velocity,
        entity_location,
        entity_orientation,
        entity_appearance,
        dead_reckoning_parameters,
        entity_marking,
        entity_capabilities,
        articulation_parameter,
    };
    proof {
        lemma_dec_entity_state_wf(input@, pos as int);
        if count > 0 {
            assert(es@.articulation_parameter matches Some(aa) && aa =~= Seq::new(
                count as nat,
                |q: int| dec_articulation(input@, pos + 132 + 16 * q),
            ));
        }
        assert(es@ == dec_entity_state(input@, pos as int));
    }
    Ok((es, p))
}

/// Serializes an Entity State body.
#[verifier::rlimit(100)]
pub fn write_entity_state(out: &mut Vec<u8>, e: &EntityState)
    requires
        e@.wf(),
    ensures
        final(out)@ == old(out)@ + enc_entity_state(e@),
{
    write_entity_id(out, &e.entity_id);
    out.push(e.force_id.to_u8());
    let count: u8 = match &e.articulation_parameter {
        Some(v) => v.len() as u8,
        None => 0u8,
    };
    out.push(count);
    write_entity_type(out, &e.entity_type);
    write_entity_type(out, &e.alternative_entity_type);
    write_vector_f32(out, &e.entity_linear_velocity);
    write_location(out, &e.entity_location);
    write_orientation(out, &e.entity_orientation);
    write_appearance(out, &e.entity_appearance);
    write_dr_parameters(out, &e.dead_reckoning_parameters);
    write_marking(out, &e.entity_marking);
    write_capabilities(out, &e.entity_capabilities);
    let ghost prefix = out@;
    match &e.articulation_parameter {
        Some(v) => {
            let mut k: usize = 0;
            while k < v.len()
                invariant
                    k <= v@.len(),
                    out@ =~= prefix + enc_art_list(v@.subrange(0, k as int)),
                decreases v@.len() - k,
            {
                write_articulation(out, &v[k]);
                proof {
                    assert(v@.subrange(0, k + 1) =~= v@.subrange(0, k as int).push(v@[k as int]));
                    lemma_enc_art_list_push(v@.subrange(0, k as int), v@[k as int]);
                }
                k = k + 1;
            }
            proof {
                assert(v@.subrange(0, v@.len() as int) =~= v@);
            }
        },
        None => {},
    }
    assert(final(out)@ =~= old(out)@ + enc_entity_state(e@));
}

// ---------------------------------------------------------------------------
// Builder
// ---------------------------------------------------------------------------

/// What `EntityStateBuilder::build` reports when a required field is missing.
#[derive(Clone, Copy, Debug, PartialEq, Eq, Structural)]
pub enum EntityStateValidationError {
    SomeFieldNotOkError,
}

/// Builder for an Entity State body: every field but the articulation list
/// must be set before `build` succeeds.
#[derive(Clone, Debug, PartialEq, Eq)]
pub struct EntityStateBuilder {
    pub entity_id: Option<EntityId>,
    pub force_id: Option<ForceId>,
    pub entity_type: Option<EntityType>,
    pub alt_entity_type: Option<EntityType>,
    pub linear_velocity: Option<VectorF32>,
    pub location: Option<Location>,
    pub orientation: Option<Orientation>,
    pub appearance: Option<Appearance>,
    pub dead_reckoning: Option<DrParameters>,
    pub marking: Option<EntityMarking>,
    pub capabilities: Option<EntityCapabilities>,
    pub articulation_parameters: Vec<ArticulationParameter>,
}

impl EntityStateBuilder {
    pub fn new() -> (r: Self)
        ensures
            r.entity_id is None,
            r.force_id is None,
            r.entity_type is None,
            r.alt_entity_type is None,
            r.linear_velocity is None,
            r.location is None,
            r.orientation is None,
            r.appearance is None,
            r.dead_reckoning is None,
            r.marking is None,
            r.capabilities is None,
            r.articulation_parameters@ == Seq::<ArticulationParameter>::empty(),
    {
        EntityStateBuilder {
            entity_id: None,
            force_id: None,
            entity_type: None,
            alt_entity_type: None,
            linear_velocity: None,
            location: None,
            orientation: None,
            appearance: None,
            dead_reckoning: None,
            marking: None,
            capabilities: None,
            articulation_parameters: Vec::new(),
        }
    }

    pub fn entity_id(self, entity_id: EntityId) -> (r: Self)
        ensures
            r == (Self { entity_id: Some(entity_id), ..self }),
    {
        Self { entity_id: Some(entity_id), ..self }
    }

    pub fn force_id(self, force_id: ForceId) -> (r: Self)
        ensures
            r == (Self { force_id: Some(force_id), ..self }),
    {
        Self { force_id: Some(force_id), ..self }
    }

    pub fn entity_type(self, entity_type: EntityType) -> (r: Self)
        ensures
            r == (Self { entity_type: Some(entity_type), ..self }),
    {
        Self { entity_type: Some(entity_type), ..self }
    }

    pub fn alt_entity_type(self, alt_entity_type: EntityType) -> (r: Self)
        ensures
            r == (Self { alt_entity_type: Some(alt_entity_type), ..self }),
    {
        Self { alt_entity_type: Some(alt_entity_type), ..self }
    }

    pub fn linear_velocity(self, linear_velocity: VectorF32) -> (r: Self)
        ensures
            r == (Self { linear_velocity: Some(linear_velocity), ..self }),
    {
        Self { linear_velocity: Some(linear_velocity), ..self }
    }

    pub fn location(self, location: Location) -> (r: Self)
        ensures
            r == (Self { location: Some(location), ..self }),
    {
        Self { location: Some(location), ..self }
    }

    pub fn orientation(self, orientation: Orientation) -> (r: Self)
        ensures
            r == (Self { orientation: Some(orientation), ..self }),
    {
        Self { orientation: Some(orientation), ..self }
    }

    pub fn appearance(self, appearance: Appearance) -> (r: Self)
        ensures
            r == (Self { appearance: Some(appearance), ..self }),
    {
        Self { appearance: Some(appearance), ..self }
    }

    pub fn dead_reckoning(self, dead_reckoning: DrParameters) -> (r: Self)
        ensures
            r == (Self { dead_reckoning: Some(dead_reckoning), ..self }),
    {
        Self { dead_reckoning: Some(dead_reckoning), ..self }
    }

    pub fn marking(self, marking: EntityMarking) -> (r: Self)
        ensures
            r == (Self { marking: Some(marking), ..self }),
    {
        Self { marking: Some(marking), ..self }
    }

    pub fn capabilities(self, capabilities: EntityCapabilities) -> (r: Self)
        ensures
            r == (Self { capabilities: Some(capabilities), ..self }),
    {
        Self { capabilities: Some(capabilities), ..self }
    }

    /// Appends one articulation parameter record.
    pub fn add_articulation_parameter(self, parameter: ArticulationParameter) -> (r: Self)
        ensures
            r.articulation_parameters@ == self.articulation_parameters@.push(parameter),
            r.entity_id == self.entity_id,
            r.force_id == self.force_id,
            r.entity_type == self.entity_type,
            r.alt_entity_type == self.alt_entity_type,
            r.linear_velocity == self.linear_velocity,
            r.location == self.location,
            r.orientation == self.orientation,
            r.appearance == self.appearance,
            r.dead_reckoning == self.dead_reckoning,
            r.marking == self.marking,
            r.capabilities == self.capabilities,
    {
        let mut parameters = self.articulation_parameters;
        parameters.push(parameter);
        Self { articulation_parameters: parameters, ..self }
    }

    /// Replaces the articulation parameter list.
    pub fn add_articulation_parameters_vec(self, parameters: Vec<ArticulationParameter>) -> (r:
        Self)
        ensures
            r == (Self { articulation_parameters: parameters, ..self }),
    {
        Self { articulation_parameters: parameters, ..self }
    }

    /// True exactly when every required field has been set.
    pub fn validate(&self) -> (r: bool)
        ensures
            r == (self.entity_id is Some && self.force_id is Some && self.entity_type is Some
                && self.alt_entity_type is Some && self.linear_velocity is Some && self.location
                is Some && self.orientation is Some && self.appearance is Some
                && self.dead_reckoning is Some && self.marking is Some && self.capabilities
                is Some),
    {
        self.entity_id.is_some() && self.force_id.is_some() && self.entity_type.is_some()
            && self.alt_entity_type.is_some() && self.linear_velocity.is_some()
            && self.location.is_some() && self.orientation.is_some() && self.appearance.is_some()
            && self.dead_reckoning.is_some() && self.marking.is_some()
            && self.capabilities.is_some()
    }

    /// Builds the body; every required field must have been set, and the
    /// result carries exactly the fields given. An empty articulation list
    /// becomes an absent one.
    pub fn build(self) -> (r: Result<EntityState, EntityStateValidationError>)
        ensures
            r is Ok <==> self.entity_id is Some && self.force_id is Some && self.entity_type
                is Some && self.alt_entity_type is Some && self.linear_velocity is Some
                && self.location is Some && self.orientation is Some && self.appearance is Some
                && self.dead_reckoning is Some && self.marking is Some && self.capabilities
                is Some,
            r matches Ok(v) ==> v@ == (EntityStateV {
                entity_id: self.entity_id->0,
                force_id: self.force_id->0,
                entity_type: self.entity_type->0,
                alternative_entity_type: self.alt_entity_type->0,
                entity_linear_velocity: self.linear_velocity->0,
                entity_location: self.location->0,
                entity_orientation: self.orientation->0,
                entity_appearance: self.appearance->0,
                dead_reckoning_parameters: (self.dead_reckoning->0)@,
                entity_marking: (self.marking->0)@,
                entity_capabilities: self.capabilities->0,
                articulation_parameter: if self.articulation_parameters@.len() > 0 {
                    Some(self.articulation_parameters@)
                } else {
                    None
                },
            }),
            r matches Err(e) ==> e == EntityStateValidationError::SomeFieldNotOkError,
    {
        let entity_id = match self.entity_id {
            Some(x) => x,
            None => {
                return Err(EntityStateValidationError::SomeFieldNotOkError);
            },
        };
        let force_id = match self.force_id {
            Some(x) => x,
            None => {
                return Err(EntityStateValidationError::SomeFieldNotOkError);
            },
        };
        let entity_type = match self.entity_type {
            Some(x) => x,
            None => {
                return Err(EntityStateValidationError::SomeFieldNotOkError);
            },
        };
        let alternative_entity_type = match self.alt_entity_type {
            Some(x) => x,
            None => {
                return Err(EntityStateValidationError::SomeFieldNotOkError);
            },
        };
        let entity_linear_velocity = match self.linear_velocity {
            Some(x) => x,
            None => {
                return Err(EntityStateValidationError::SomeFieldNotOkError);
            },
        };
        let entity_location = match self.location {
            Some(x) => x,
            None => {
                return Err(EntityStateValidationError::SomeFieldNotOkError);
            },
        };
        let entity_orientation = match self.orientation {
            Some(x) => x,
            None => {
                return Err(EntityStateValidationError::SomeFieldNotOkError);
            },
        };
        let entity_appearance = match self.appearance {
            Some(x) => x,
            None => {
                return Err(EntityStateValidationError::SomeFieldNotOkError);
            },
        };
        let dead_reckoning_parameters = match self.dead_reckoning {
            Some(x) => x,
            None => {
                return Err(EntityStateValidationError::SomeFieldNotOkError);
            },
        };
        let entity_marking = match self.marking {
            Some(x) => x,
            None => {
                return Err(EntityStateValidationError::SomeFieldNotOkError);
            },
        };
        let entity_capabilities = match self.capabilities {
            Some(x) => x,
            None => {
                return Err(EntityStateValidationError::SomeFieldNotOkError);
            },
        };
        let articulation_parameter = if self.articulation_parameters.len() > 0 {
            Some(self.articulation_parameters)
        } else {
            None
        };
        Ok(EntityState {
            entity_id,
            force_id,
            entity_type,
            alternative_entity_type,
            entity_linear_velocity,
            entity_location,
            entity_orientation,
            entity_appearance,
            dead_reckoning_parameters,
            entity_marking,
            entity_capabilities,
            articulation_parameter,
        })
    }
}

impl EntityState {
    /// A fresh builder with no field set.
    pub fn builder() -> (r: EntityStateBuilder)
        ensures
            r.entity_id is None,
            r.force_id is None,
            r.entity_type is None,
            r.alt_entity_type is None,
            r.linear_velocity is None,
            r.location is None,
            r.orientation is None,
            r.appearance is None,
            r.dead_reckoning is None,
            r.marking is None,
            r.capabilities is None,
            r.articulation_parameters@ == Seq::<ArticulationParameter>::empty(),
    {
        EntityStateBuilder::new()
    }
}

} // verus!
