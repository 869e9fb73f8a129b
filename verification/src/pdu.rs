//! The top-level PDU: header plus body, the dispatcher that selects a body
//! codec by PDU type, the stream parser that resynchronizes after one bad
//! PDU, the serializer, and the round-trip and length laws.

use vstd::prelude::*;
use crate::bytes::{bytes_at, dec_u16, lemma_bytes_at_split, read_bytes, write_bytes};
use crate::entity_state::{
    dec_entity_state, enc_entity_state, es_wire_len, lemma_dec_enc_entity_state,
    lemma_enc_art_list_len, art_seq, parse_entity_state_body, write_entity_state, EntityState,
    EntityStateV,
};
use crate::enumerations::{FireTypeIndicator, PduType, ProtocolVersion};
use crate::errors::DisError;
use crate::fire::{
    dec_fire, enc_fire, lemma_dec_enc_fire, parse_fire_body, write_fire_body, Fire,
};
use crate::header::{
    dec_header, enc_header, lemma_dec_enc_header, parse_header_with_version, write_header,
    PduHeader,
};
use crate::siman::{
    ar_fits, aresp_fits, dec_acknowledge, dec_action_request,
    dec_action_response, enc_acknowledge, enc_action_request, enc_action_response,
    lemma_dec_enc_acknowledge, lemma_dec_enc_action_request, lemma_dec_enc_action_response,
    lemma_enc_fixed_list_len, lemma_var_list_len_nonneg, parse_acknowledge_body,
    parse_action_request_body, parse_action_response_body, write_acknowledge_body,
    write_action_request_body, write_action_response_body, Acknowledge, ActionRequest,
    ActionRequestV, ActionResponse, ActionResponseV,
};

verus! {

// ---------------------------------------------------------------------------
// The PDU model
// ---------------------------------------------------------------------------

/// A PDU body: one variant per supported PDU type, and a raw fallback that
/// preserves the bytes of any other type.
#[derive(Clone, Debug, PartialEq, Eq)]
pub enum PduBody {
    EntityState(EntityState),
    Fire(Fire),
    Acknowledge(Acknowledge),
    ActionRequest(ActionRequest),
    ActionResponse(ActionResponse),
    Other(Vec<u8>),
}

/// One complete PDU.
#[derive(Clone, Debug, PartialEq, Eq)]
pub struct Pdu {
    pub header: PduHeader,
    pub body: PduBody,
}

/// The mathematical model of a PDU body.
pub enum PduBodyV {
    EntityState(EntityStateV),
    Fire(Fire),
    Acknowledge(Acknowledge),
    ActionRequest(ActionRequestV),
    ActionResponse(ActionResponseV),
    Other(Seq<u8>),
}

/// The mathematical model of a PDU.
pub struct PduV {
    pub header: PduHeader,
    pub body: PduBodyV,
}

impl View for PduBody {
    type V = PduBodyV;

    open spec fn view(&self) -> PduBodyV {
        match self {
            PduBody::EntityState(b) => PduBodyV::EntityState(b@),
            PduBody::Fire(b) => PduBodyV::Fire(*b),
            PduBody::Acknowledge(b) => PduBodyV::Acknowledge(*b),
            PduBody::ActionRequest(b) => PduBodyV::ActionRequest(b@),
            PduBody::ActionResponse(b) => PduBodyV::ActionResponse(b@),
            PduBody::Other(raw) => PduBodyV::Other(raw@),
        }
    }
}

impl View for Pdu {
    type V = PduV;

    open spec fn view(&self) -> PduV {
        PduV { header: self.header, body: self.body@ }
    }
}

impl PduBodyV {
    /// The bytes this body occupies on the wire.
    pub open spec fn body_len(self) -> int {
        match self {
            PduBodyV::EntityState(b) => b.body_len(),
            PduBodyV::Fire(_) => 84,
            PduBodyV::Acknowledge(_) => 20,
            PduBodyV::ActionRequest(b) => b.body_len(),
            PduBodyV::ActionResponse(b) => b.body_len(),
            PduBodyV::Other(raw) => raw.len() as int,
        }
    }

    pub open spec fn wf(self) -> bool {
        match self {
            PduBodyV::EntityState(b) => b.wf(),
            PduBodyV::Fire(b) => b.wf(),
            PduBodyV::Acknowledge(b) => b.wf(),
            PduBodyV::ActionRequest(b) => b.wf(),
            PduBodyV::ActionResponse(b) => b.wf(),
            PduBodyV::Other(_) => true,
        }
    }

    /// The body variant that the dispatcher selects for a PDU type.
    pub open spec fn matches_type(self, pt: PduType) -> bool {
        match pt {
            PduType::EntityState => self is EntityState,
            PduType::Fire => self is Fire,
            PduType::Acknowledge => self is Acknowledge,
            PduType::ActionRequest => self is ActionRequest,
            PduType::ActionResponse => self is ActionResponse,
            _ => self is Other,
        }
    }
}

/// The fire-type indicator a header carries, `Munition` when absent.
pub open spec fn header_fti(h: PduHeader) -> FireTypeIndicator {
    match h.pdu_status {
        Some(st) => match st.fire_type_indicator {
            Some(f) => f,
            None => FireTypeIndicator::Munition,
        },
        None => FireTypeIndicator::Munition,
    }
}

impl PduV {
    /// The header is well-formed and names a decodable protocol version, the
    /// body matches the header's PDU type and is itself well-formed, a Fire
    /// descriptor matches the header's fire-type indicator, and the declared
    /// length is the true encoded size.
    pub open spec fn wf(self) -> bool {
        &&& self.header.wf()
        &&& (self.header.protocol_version == ProtocolVersion::V6 || self.header.protocol_version
            == ProtocolVersion::V7)
        &&& self.body.matches_type(self.header.pdu_type)
        &&& self.body.wf()
        &&& (self.body matches PduBodyV::Fire(f) ==> f.descriptor.matches_fti(
            header_fti(self.header),
        ))
        &&& self.header.pdu_length == 12 + self.body.body_len()
    }
}

pub open spec fn enc_body(b: PduBodyV) -> Seq<u8> {
    match b {
        PduBodyV::EntityState(v) => enc_entity_state(v),
        PduBodyV::Fire(v) => enc_fire(v),
        PduBodyV::Acknowledge(v) => enc_acknowledge(v),
        PduBodyV::ActionRequest(v) => enc_action_request(v),
        PduBodyV::ActionResponse(v) => enc_action_response(v),
        PduBodyV::Other(raw) => raw,
    }
}

/// A whole PDU on the wire: the header followed by the body.
pub open spec fn enc_pdu(p: PduV) -> Seq<u8> {
    enc_header(p.header) + enc_body(p.body)
}

#[verifier::rlimit(100)]
pub proof fn lemma_enc_body_len(b: PduBodyV)
    requires
        b.wf(),
    ensures
        enc_body(b).len() == b.body_len(),
        b.body_len() >= 0,
{
    match b {
        PduBodyV::EntityState(v) => {
            lemma_enc_art_list_len(art_seq(v));
        },
        PduBodyV::Fire(_) => {},
        PduBodyV::Acknowledge(_) => {},
        PduBodyV::ActionRequest(v) => {
            lemma_enc_fixed_list_len(v.fixed_datum_records);
            lemma_var_list_len_nonneg(v.variable_datum_records);
        },
        PduBodyV::ActionResponse(v) => {
            lemma_enc_fixed_list_len(v.fixed_datum_records);
            lemma_var_list_len_nonneg(v.variable_datum_records);
        },
        PduBodyV::Other(_) => {},
    }
}

// ---------------------------------------------------------------------------
// The dispatcher, as a specification
// ---------------------------------------------------------------------------

/// What parsing one PDU at `i` yields: the decoded PDU and the index just
/// after it (the full declared length, trailing unread bytes skipped), or the
/// error. `forced` fixes the protocol version instead of byte 0.
#[verifier::opaque]
pub open spec fn spec_parse_pdu(b: Seq<u8>, i: int, forced: Option<ProtocolVersion>) -> Result<
    (PduV, int),
    DisError,
> {
    if i + 12 > b.len() {
        Err(DisError::InsufficientBytes { needed: 12, available: (b.len() - i) as usize })
    } else if forced is None && !(b[i] == 6 || b[i] == 7) {
        Err(DisError::UnsupportedProtocolVersion(b[i]))
    } else {
        let eff = match forced {
            Some(v) => v,
            None => ProtocolVersion::from_raw(b[i]),
        };
        let h = dec_header(b, i, eff);
        let declared = h.pdu_length as int;
        if declared < 12 {
            Err(DisError::InconsistentLength { declared: h.pdu_length, actual: 12 })
        } else if i + declared > b.len() {
            Err(DisError::InsufficientBytes {
                needed: h.pdu_length as usize,
                available: (b.len() - i) as usize,
            })
        } else {
            let bs = i + 12;
            let end = i + declared;
            match h.pdu_type {
                PduType::EntityState => if bs + 132 <= end && bs + es_wire_len(b, bs) <= end {
                    Ok(
                        (
                            PduV { header: h, body: PduBodyV::EntityState(dec_entity_state(b, bs)) },
                            end,
                        ),
                    )
                } else {
                    Err(DisError::InconsistentLength { declared: h.pdu_length, actual: 12 })
                },
                PduType::Fire => if bs + 84 <= end {
                    Ok(
                        (
                            PduV {
                                header: h,
                                body: PduBodyV::Fire(dec_fire(b, bs, header_fti(h))),
                            },
                            end,
                        ),
                    )
                } else {
                    Err(DisError::InconsistentLength { declared: h.pdu_length, actual: 12 })
                },
                PduType::Acknowledge => if bs + 20 <= end {
                    Ok(
                        (
                            PduV { header: h, body: PduBodyV::Acknowledge(dec_acknowledge(b, bs)) },
                            end,
                        ),
                    )
                } else {
                    Err(DisError::InconsistentLength { declared: h.pdu_length, actual: 12 })
                },
                PduType::ActionRequest => if ar_fits(b, bs, end) {
                    Ok(
                        (
                            PduV {
                                header: h,
                                body: PduBodyV::ActionRequest(dec_action_request(b, bs)),
                            },
                            end,
                        ),
                    )
                } else {
                    Err(DisError::InconsistentLength { declared: h.pdu_length, actual: 12 })
                },
                PduType::ActionResponse => if aresp_fits(b, bs, end) {
                    Ok(
                        (
                            PduV {
                                header: h,
                                body: PduBodyV::ActionResponse(dec_action_response(b, bs)),
                            },
                            end,
                        ),
                    )
                } else {
                    Err(DisError::InconsistentLength { declared: h.pdu_length, actual: 12 })
                },
                _ => Ok((PduV { header: h, body: PduBodyV::Other(b.subrange(bs, end)) }, end)),
            }
        }
    }
}

/// What parsing a whole buffer from `i` yields, one result per PDU. After an
/// error the parser advances by the declared PDU length when that length is
/// sound and lies within the buffer, and otherwise stops; one malformed PDU
/// does not poison the rest of the stream.
pub open spec fn spec_parse_stream(b: Seq<u8>, i: int, forced: Option<ProtocolVersion>) -> Seq<
    Result<PduV, DisError>,
>
    decreases b.len() - i,
    via spec_parse_stream_decreases
{
    if i < 0 || i >= b.len() {
        Seq::empty()
    } else {
        match spec_parse_pdu(b, i, forced) {
            Ok((p, n)) => seq![Ok::<PduV, DisError>(p)] + spec_parse_stream(b, n, forced),
            Err(e) => {
                let declared = dec_u16(b, i + 8) as int;
                if i + 12 <= b.len() && declared >= 12 && i + declared <= b.len() {
                    seq![Err::<PduV, DisError>(e)] + spec_parse_stream(b, i + declared, forced)
                } else {
                    seq![Err::<PduV, DisError>(e)]
                }
            },
        }
    }
}

#[via_fn]
proof fn spec_parse_stream_decreases(b: Seq<u8>, i: int, forced: Option<ProtocolVersion>) {
    reveal(spec_parse_pdu);
}

// ---------------------------------------------------------------------------
// The executable dispatcher
// ---------------------------------------------------------------------------

/// Parses one PDU at `pos`, forcing the protocol version when `forced` is
/// given; consumes exactly the declared PDU length.
#[verifier::rlimit(100)]
pub fn parse_pdu_with(input: &Vec<u8>, pos: usize, forced: Option<ProtocolVersion>) -> (r: Result<
    (Pdu, usize),
    DisError,
>)
    requires
        pos <= input@.len(),
    ensures
        (r is Ok) == (spec_parse_pdu(input@, pos as int, forced) is Ok),
        r matches Ok((p, n)) ==> spec_parse_pdu(input@, pos as int, forced) == Ok::<
            (PduV, int),
            DisError,
        >((p@, n as int)) && pos + 12 <= n <= input@.len(),
        r matches Err(e) ==> spec_parse_pdu(input@, pos as int, forced) == Err::<
            (PduV, int),
            DisError,
        >(e),
{
    proof {
        reveal(spec_parse_pdu);
    }
    let len = input.len();
    if len - pos < 12 {
        return Err(DisError::InsufficientBytes { needed: 12, available: len - pos });
    }
    if forced.is_none() && !(input[pos] == 6 || input[pos] == 7) {
        return Err(DisError::UnsupportedProtocolVersion(input[pos]));
    }
    let eff = match forced {
        Some(v) => v,
        None => ProtocolVersion::from_u8(input[pos]),
    };
    let (header, _) = match parse_header_with_version(input, pos, len, eff) {
        Ok(x) => x,
        Err(e) => {
            return Err(e);
        },
    };
    let declared = header.pdu_length as usize;
    if declared < 12 {
        return Err(DisError::InconsistentLength { declared: header.pdu_length, actual: 12 });
    }
    if declared > len - pos {
        return Err(DisError::InsufficientBytes {
            needed: header.pdu_length as usize,
            available: len - pos,
        });
    }
    let bs = pos + 12;
    let end = pos + declared;
    let body: PduBody = match header.pdu_type {
        PduType::EntityState => {
            match parse_entity_state_body(input, bs, end) {
                Ok((b, _)) => PduBody::EntityState(b),
                Err(_) => {
                    return Err(DisError::InconsistentLength {
                        declared: header.pdu_length,
                        actual: 12,
                    });
                },
            }
        },
        PduType::Fire => {
            let fti = match &header.pdu_status {
                Some(st) => match st.fire_type_indicator {
                    Some(f) => f,
                    None => FireTypeIndicator::Munition,
                },
                None => FireTypeIndicator::Munition,
            };
            match parse_fire_body(input, bs, end, fti) {
                Ok((b, _)) => PduBody::Fire(b),
                Err(_) => {
                    return Err(DisError::InconsistentLength {
                        declared: header.pdu_length,
                        actual: 12,
                    });
                },
            }
        },
        PduType::Acknowledge => {
            match parse_acknowledge_body(input, bs, end) {
                Ok((b, _)) => PduBody::Acknowledge(b),
                Err(_) => {
                    return Err(DisError::InconsistentLength {
                        declared: header.pdu_length,
                        actual: 12,
                    });
                },
            }
        },
        PduType::ActionRequest => {
            match parse_action_request_body(input, bs, end) {
                Ok((b, _)) => PduBody::ActionRequest(b),
                Err(_) => {
                    return Err(DisError::InconsistentLength {
                        declared: header.pdu_length,
                        actual: 12,
                    });
                },
            }
        },
        PduType::ActionResponse => {
            match parse_action_response_body(input, bs, end) {
                Ok((b, _)) => PduBody::ActionResponse(b),
                Err(_) => {
                    return Err(DisError::InconsistentLength {
                        declared: header.pdu_length,
                        actual: 12,
                    });
                },
            }
        },
        _ => {
            match read_bytes(input, bs, declared - 12, end) {
                Ok((raw, _)) => PduBody::Other(raw),
                Err(e) => {
                    return Err(e);
                },
            }
        },
    };
    Ok((Pdu { header, body }, end))
}

/// The model of one parse result, the decoded PDU replaced by its view.
pub open spec fn pdu_result_view(x: Result<Pdu, DisError>) -> Result<PduV, DisError> {
    match x {
        Ok(p) => Ok(p@),
        Err(e) => Err(e),
    }
}

/// Parses every PDU in the buffer, forcing the protocol version when `forced`
/// is given. One malformed PDU yields one error and, when its declared length
/// is usable, the parser resynchronizes at the next PDU.
#[verifier::rlimit(100)]
pub fn parse_with(input: &Vec<u8>, forced: Option<ProtocolVersion>) -> (r: Vec<
    Result<Pdu, DisError>,
>)
    ensures
        r@.map_values(|x: Result<Pdu, DisError>| pdu_result_view(x)) == spec_parse_stream(
            input@,
            0,
            forced,
        ),
{
    let mut out: Vec<Result<Pdu, DisError>> = Vec::new();
    let mut p: usize = 0;
    let len = input.len();
    loop
        invariant_except_break
            spec_parse_stream(input@, 0, forced) =~= out@.map_values(
                |x: Result<Pdu, DisError>| pdu_result_view(x),
            ) + spec_parse_stream(input@, p as int, forced),
        invariant
            p <= len,
            len == input@.len(),
        ensures
            spec_parse_stream(input@, 0, forced) =~= out@.map_values(
                |x: Result<Pdu, DisError>| pdu_result_view(x),
            ),
        decreases len - p,
    {
        if p >= len {
            proof {
                assert(spec_parse_stream(input@, p as int, forced) =~= Seq::<
                    Result<PduV, DisError>,
                >::empty());
                assert(out@.map_values(|x: Result<Pdu, DisError>| pdu_result_view(x)) + Seq::<
                    Result<PduV, DisError>,
                >::empty() =~= out@.map_values(|x: Result<Pdu, DisError>| pdu_result_view(x)));
            }
            break ;
        }
        let ghost outv = out@.map_values(|x: Result<Pdu, DisError>| pdu_result_view(x));
        match parse_pdu_with(input, p, forced) {
            Ok((pdu, n)) => {
                proof {
                    assert(spec_parse_stream(input@, p as int, forced) =~= seq![
                        Ok::<PduV, DisError>(pdu@),
                    ] + spec_parse_stream(input@, n as int, forced));
                    assert(out@.push(Ok(pdu)).map_values(
                        |x: Result<Pdu, DisError>| pdu_result_view(x),
                    ) =~= outv.push(Ok(pdu@)));
                }
                out.push(Ok(pdu));
                p = n;
            },
            Err(e) => {
                proof {
                    assert(out@.push(Err(e)).map_values(
                        |x: Result<Pdu, DisError>| pdu_result_view(x),
                    ) =~= outv.push(Err(e)));
                }
                out.push(Err(e));
                let mut advanced = false;
                if len - p >= 12 {
                    let declared = (((input[p + 8] as u16) << 8) | (input[p + 9] as u16)) as usize;
                    if declared >= 12 && declared <= len - p {
                        proof {
                            assert(spec_parse_stream(input@, p as int, forced) =~= seq![
                                Err::<PduV, DisError>(e),
                            ] + spec_parse_stream(input@, p + declared, forced));
                        }
                        p = p + declared;
                        advanced = true;
                    }
                }
                if !advanced {
                    proof {
                        assert(spec_parse_stream(input@, p as int, forced) =~= seq![
                            Err::<PduV, DisError>(e),
                        ]);
                        assert(spec_parse_stream(input@, 0, forced) =~= out@.map_values(
                            |x: Result<Pdu, DisError>| pdu_result_view(x),
                        ));
                    }
                    break ;
                }
            },
        }
    }
    out
}

/// Parses every PDU, taking the protocol version from each header.
pub fn parse(input: &Vec<u8>) -> (r: Vec<Result<Pdu, DisError>>)
    ensures
        r@.map_values(|x: Result<Pdu, DisError>| pdu_result_view(x)) == spec_parse_stream(
            input@,
            0,
            None,
        ),
{
    parse_with(input, None)
}

/// Parses every PDU under a caller-fixed protocol version.
pub fn parse_as_version(input: &Vec<u8>, version: ProtocolVersion) -> (r: Vec<
    Result<Pdu, DisError>,
>)
    ensures
        r@.map_values(|x: Result<Pdu, DisError>| pdu_result_view(x)) == spec_parse_stream(
            input@,
            0,
            Some(version),
        ),
{
    parse_with(input, Some(version))
}

/// Parses every PDU as protocol version 6.
pub fn parse_v6_pdus(input: &Vec<u8>) -> (r: Vec<Result<Pdu, DisError>>)
    ensures
        r@.map_values(|x: Result<Pdu, DisError>| pdu_result_view(x)) == spec_parse_stream(
            input@,
            0,
            Some(ProtocolVersion::V6),
        ),
{
    parse_with(input, Some(ProtocolVersion::V6))
}

/// Parses every PDU as protocol version 7.
pub fn parse_v7_pdus(input: &Vec<u8>) -> (r: Vec<Result<Pdu, DisError>>)
    ensures
        r@.map_values(|x: Result<Pdu, DisError>| pdu_result_view(x)) == spec_parse_stream(
            input@,
            0,
            Some(ProtocolVersion::V7),
        ),
{
    parse_with(input, Some(ProtocolVersion::V7))
}

// ---------------------------------------------------------------------------
// Serialization
// ---------------------------------------------------------------------------

impl Pdu {
    /// Serializes this PDU into `out` and returns the bytes written, which
    /// equal the header's declared length.
    #[verifier::rlimit(100)]
    pub fn serialize(&self, out: &mut Vec<u8>) -> (r: usize)
        requires
            self@.wf(),
        ensures
            final(out)@ == old(out)@ + enc_pdu(self@),
            r == self@.header.pdu_length,
            r == enc_pdu(self@).len(),
    {
        proof {
            lemma_enc_body_len(self@.body);
        }
        write_header(out, &self.header);
        match &self.body {
            PduBody::EntityState(b) => write_entity_state(out, b),
            PduBody::Fire(b) => write_fire_body(out, b),
            PduBody::Acknowledge(b) => write_acknowledge_body(out, b),
            PduBody::ActionRequest(b) => write_action_request_body(out, b),
            PduBody::ActionResponse(b) => write_action_response_body(out, b),
            PduBody::Other(raw) => write_bytes(out, raw),
        }
        assert(final(out)@ =~= old(out)@ + enc_pdu(self@));
        self.header.pdu_length as usize
    }
}

impl PduBody {
    /// The bytes this body occupies on the wire; adding the twelve header
    /// bytes gives the value the header's length field must carry.
    pub fn body_length(&self) -> (r: u16)
        requires
            self@.wf(),
            12 + self@.body_len() <= u16::MAX,
        ensures
            r == self@.body_len(),
    {
        match self {
            PduBody::EntityState(b) => {
                match &b.articulation_parameter {
                    Some(v) => 132 + 16 * (v.len() as u16),
                    None => 132,
                }
            },
            PduBody::Fire(_) => 84,
            PduBody::Acknowledge(_) => 20,
            PduBody::ActionRequest(b) => b.body_length(),
            PduBody::ActionResponse(b) => b.body_length(),
            PduBody::Other(raw) => raw.len() as u16,
        }
    }
}

impl Acknowledge {
    /// Wraps this body as a PDU body.
    pub fn into_pdu_body(self) -> (r: PduBody)
        ensures
            r == PduBody::Acknowledge(self),
    {
        PduBody::Acknowledge(self)
    }
}

impl ActionRequest {
    /// Wraps this body as a PDU body.
    pub fn into_pdu_body(self) -> (r: PduBody)
        ensures
            r@ == PduBodyV::ActionRequest(self@),
    {
        PduBody::ActionRequest(self)
    }
}

impl ActionResponse {
    /// Wraps this body as a PDU body.
    pub fn into_pdu_body(self) -> (r: PduBody)
        ensures
            r@ == PduBodyV::ActionResponse(self@),
    {
        PduBody::ActionResponse(self)
    }
}

// ---------------------------------------------------------------------------
// Laws
// ---------------------------------------------------------------------------

/// The length law: a well-formed PDU's encoding is exactly as long as the
/// header declares, which is twelve bytes plus the body; and a PDU carrying
/// datum lists occupies a multiple of eight octets.
pub proof fn lemma_pdu_length(p: PduV)
    requires
        p.wf(),
    ensures
        enc_pdu(p).len() == p.header.pdu_length,
        p.header.pdu_length == 12 + p.body.body_len(),
        (p.body is ActionRequest || p.body is ActionResponse) ==> enc_pdu(p).len() % 8 == 0,
{
    lemma_enc_body_len(p.body);
    match p.body {
        PduBodyV::ActionRequest(v) => {
            lemma_var_list_len_nonneg(v.variable_datum_records);
            assert((12 + 28 + 8 * v.fixed_datum_records.len() as int + var_list_len_alias(
                v.variable_datum_records,
            )) % 8 == 0) by {
                crate::bytes::lemma_pad8(0);
            }
        },
        PduBodyV::ActionResponse(v) => {
            lemma_var_list_len_nonneg(v.variable_datum_records);
            assert((12 + 28 + 8 * v.fixed_datum_records.len() as int + var_list_len_alias(
                v.variable_datum_records,
            )) % 8 == 0) by {
                crate::bytes::lemma_pad8(0);
            }
        },
        _ => {},
    }
}

/// The variable datum list length, restated for the length law.
pub open spec fn var_list_len_alias(s: Seq<crate::records::VariableDatumV>) -> int {
    crate::siman::var_list_len(s)
}

/// The universal round trip: parsing the encoding of any well-formed PDU
/// gives that PDU back and consumes exactly its declared length. Stated over
/// any buffer that holds the encoding at position `i`.
#[verifier::rlimit(100)]
pub proof fn lemma_dec_enc_pdu(b: Seq<u8>, i: int, p: PduV)
    requires
        p.wf(),
        bytes_at(b, i, enc_pdu(p)),
    ensures
        spec_parse_pdu(b, i, None) == Ok::<(PduV, int), DisError>(
            (p, i + p.header.pdu_length as int),
        ),
{
    lemma_enc_body_len(p.body);
    lemma_bytes_at_split(b, i, enc_header(p.header), enc_body(p.body));
    lemma_dec_enc_header(b, i, p.header);
    assert(b[i] == p.header.protocol_version.raw());
    assert(b[i] == 6 || b[i] == 7);
    assert(ProtocolVersion::from_raw(b[i]) == p.header.protocol_version);
    assert(dec_header(b, i, p.header.protocol_version) == p.header);
    let bs = i + 12;
    let end = i + p.header.pdu_length as int;
    match p.body {
        PduBodyV::EntityState(v) => {
            assert(spec_parse_pdu(b, i, None) == Ok::<(PduV, int), DisError>((p, end))) by {
                reveal(spec_parse_pdu);
                lemma_dec_enc_entity_state(b, bs, v);
                assert(es_wire_len(b, bs) == v.body_len());
            }
        },
        PduBodyV::Fire(v) => {
            assert(spec_parse_pdu(b, i, None) == Ok::<(PduV, int), DisError>((p, end))) by {
                reveal(spec_parse_pdu);
                lemma_dec_enc_fire(b, bs, v, header_fti(p.header));
            }
        },
        PduBodyV::Acknowledge(v) => {
            assert(spec_parse_pdu(b, i, None) == Ok::<(PduV, int), DisError>((p, end))) by {
                reveal(spec_parse_pdu);
                lemma_dec_enc_acknowledge(b, bs, v);
            }
        },
        PduBodyV::ActionRequest(v) => {
            assert(spec_parse_pdu(b, i, None) == Ok::<(PduV, int), DisError>((p, end))) by {
                reveal(spec_parse_pdu);
                lemma_dec_enc_action_request(b, bs, v);
            }
        },
        PduBodyV::ActionResponse(v) => {
            assert(spec_parse_pdu(b, i, None) == Ok::<(PduV, int), DisError>((p, end))) by {
                reveal(spec_parse_pdu);
                lemma_dec_enc_action_response(b, bs, v);
            }
        },
        PduBodyV::Other(raw) => {
            assert(spec_parse_pdu(b, i, None) == Ok::<(PduV, int), DisError>((p, end))) by {
                reveal(spec_parse_pdu);
                assert(b.subrange(bs, end) =~= raw);
            }
        },
    }
}

/// A buffer holding the encodings of a list of PDUs, one after the other.
pub open spec fn enc_pdu_list(ps: Seq<PduV>) -> Seq<u8>
    decreases ps.len(),
{
    if ps.len() == 0 {
        Seq::empty()
    } else {
        enc_pdu(ps[0]) + enc_pdu_list(ps.drop_first())
    }
}

pub open spec fn pdu_list_wf(ps: Seq<PduV>) -> bool {
    forall|k: int| 0 <= k < ps.len() ==> (#[trigger] ps[k]).wf()
}

/// The stream round trip: a buffer that is exactly the concatenation of
/// well-formed PDU encodings parses to those PDUs, each decoded successfully,
/// in order.
#[verifier::rlimit(100)]
pub proof fn lemma_stream_round_trip(b: Seq<u8>, i: int, ps: Seq<PduV>)
    requires
        pdu_list_wf(ps),
        bytes_at(b, i, enc_pdu_list(ps)),
        i + enc_pdu_list(ps).len() == b.len(),
    ensures
        spec_parse_stream(b, i, None) == ps.map_values(|p: PduV| Ok::<PduV, DisError>(p)),
    decreases ps.len(),
{
    if ps.len() == 0 {
        assert(i >= b.len());
        assert(spec_parse_stream(b, i, None) =~= ps.map_values(
            |p: PduV| Ok::<PduV, DisError>(p),
        ));
    } else {
        let p0 = ps[0];
        lemma_bytes_at_split(b, i, enc_pdu(p0), enc_pdu_list(ps.drop_first()));
        lemma_dec_enc_pdu(b, i, p0);
        lemma_enc_body_len(p0.body);
        let n = i + p0.header.pdu_length as int;
        assert(n == i + enc_pdu(p0).len());
        assert(i < b.len()) by {
            assert(enc_pdu(p0).len() >= 12);
        }
        assert forall|k: int|
            0 <= k < ps.drop_first().len() implies (#[trigger] ps.drop_first()[k]).wf() by {
            assert(ps.drop_first()[k] == ps[k + 1]);
        }
        lemma_stream_round_trip(b, n, ps.drop_first());
        assert(spec_parse_stream(b, i, None) =~= ps.map_values(
            |p: PduV| Ok::<PduV, DisError>(p),
        )) by {
            assert(ps.drop_first().map_values(|p: PduV| Ok::<PduV, DisError>(p))
                =~= ps.map_values(|p: PduV| Ok::<PduV, DisError>(p)).drop_first());
            assert(spec_parse_stream(b, i, None) == seq![Ok::<PduV, DisError>(p0)]
                + spec_parse_stream(b, n, None));
        }
    }
}

/// The stream resynchronization law: a buffer that is a valid PDU sequence,
/// then one corrupt block that advertises a sound length but whose body does
/// not decode, then another valid PDU sequence, parses to the first PDUs, one
/// error, and the second PDUs.
#[verifier::rlimit(100)]
pub proof fn lemma_stream_resync(
    b: Seq<u8>,
    i: int,
    front: Seq<PduV>,
    corrupt_len: int,
    e: DisError,
    back: Seq<PduV>,
)
    requires
        pdu_list_wf(front),
        pdu_list_wf(back),
        bytes_at(b, i, enc_pdu_list(front)),
        12 <= corrupt_len,
        i + enc_pdu_list(front).len() + corrupt_len + enc_pdu_list(back).len() == b.len(),
        bytes_at(b, i + enc_pdu_list(front).len() + corrupt_len, enc_pdu_list(back)),
        spec_parse_pdu(b, i + enc_pdu_list(front).len(), None) == Err::<(PduV, int), DisError>(e),
        dec_u16(b, i + enc_pdu_list(front).len() + 8) == corrupt_len,
    ensures
        spec_parse_stream(b, i, None) == front.map_values(|p: PduV| Ok::<PduV, DisError>(p))
            + seq![Err::<PduV, DisError>(e)] + back.map_values(|p: PduV| Ok::<PduV, DisError>(p)),
    decreases front.len(),
{
    let j = i + enc_pdu_list(front).len();
    if front.len() == 0 {
        assert(j == i);
        assert(i < b.len());
        assert(i + 12 <= b.len());
        let after = i + corrupt_len;
        assert(spec_parse_stream(b, i, None) == seq![Err::<PduV, DisError>(e)]
            + spec_parse_stream(b, after, None));
        lemma_stream_round_trip(b, after, back);
        assert(spec_parse_stream(b, i, None) =~= front.map_values(
            |p: PduV| Ok::<PduV, DisError>(p),
        ) + seq![Err::<PduV, DisError>(e)] + back.map_values(|p: PduV| Ok::<PduV, DisError>(p)));
    } else {
        let p0 = front[0];
        lemma_bytes_at_split(b, i, enc_pdu(p0), enc_pdu_list(front.drop_first()));
        lemma_dec_enc_pdu(b, i, p0);
        lemma_enc_body_len(p0.body);
        let n = i + p0.header.pdu_length as int;
        assert(n == i + enc_pdu(p0).len());
        assert(i < b.len()) by {
            assert(enc_pdu(p0).len() >= 12);
        }
        assert forall|k: int|
            0 <= k < front.drop_first().len() implies (#[trigger] front.drop_first()[k]).wf() by {
            assert(front.drop_first()[k] == front[k + 1]);
        }
        assert(n + enc_pdu_list(front.drop_first()).len() == j);
        lemma_stream_resync(b, n, front.drop_first(), corrupt_len, e, back);
        assert(spec_parse_stream(b, i, None) == seq![Ok::<PduV, DisError>(p0)]
            + spec_parse_stream(b, n, None));
        assert(front.drop_first().map_values(|p: PduV| Ok::<PduV, DisError>(p))
            =~= front.map_values(|p: PduV| Ok::<PduV, DisError>(p)).drop_first());
        assert(spec_parse_stream(b, i, None) =~= front.map_values(
            |p: PduV| Ok::<PduV, DisError>(p),
        ) + seq![Err::<PduV, DisError>(e)] + back.map_values(|p: PduV| Ok::<PduV, DisError>(p)));
    }
}

} // verus!
