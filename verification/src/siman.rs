//! The simulation-management bodies: Acknowledge, Action Request and Action
//! Response. The latter two carry a list of fixed datum records and a list of
//! variable datum records, each list preceded by its count.

use vstd::prelude::*;
use crate::bytes::{
    bytes_at, dec_u16, dec_u32, enc_u16, enc_u32, lemma_bytes_at_split, lemma_dec_enc_u16,
    lemma_dec_enc_u32, read_u16, read_u32, write_u16, write_u32,
};
use crate::enumerations::{AcknowledgeFlag, ActionId, RequestStatus, ResponseFlag};
use crate::errors::DisError;
use crate::records::{
    dec_entity_id, dec_fixed_datum, dec_variable_datum, dec_variable_datum_wire_len,
    enc_entity_id, enc_fixed_datum, enc_variable_datum, lemma_dec_enc_entity_id,
    lemma_dec_enc_fixed_datum, lemma_dec_enc_variable_datum, lemma_enc_variable_datum_len,
    parse_entity_id, parse_fixed_datum, parse_variable_datum, write_entity_id, write_fixed_datum,
    write_variable_datum, EntityId, FixedDatum, VariableDatum, VariableDatumV, FIXED_DATUM_LEN,
};

verus! {

// ---------------------------------------------------------------------------
// Datum lists
// ---------------------------------------------------------------------------

/// The fixed datum records, one eight-byte encoding after the other.
pub open spec fn enc_fixed_list(s: Seq<FixedDatum>) -> Seq<u8>
    decreases s.len(),
{
    if s.len() == 0 {
        Seq::empty()
    } else {
        enc_fixed_datum(s[0]) + enc_fixed_list(s.drop_first())
    }
}

pub proof fn lemma_enc_fixed_list_len(s: Seq<FixedDatum>)
    ensures
        enc_fixed_list(s).len() == 8 * s.len(),
    decreases s.len(),
{
    if s.len() > 0 {
        lemma_enc_fixed_list_len(s.drop_first());
    }
}

pub proof fn lemma_enc_fixed_list_push(s: Seq<FixedDatum>, x: FixedDatum)
    ensures
        enc_fixed_list(s.push(x)) == enc_fixed_list(s) + enc_fixed_datum(x),
    decreases s.len(),
{
    if s.len() == 0 {
        assert(s.push(x)[0] == x);
        assert(s.push(x).drop_first() =~= Seq::<FixedDatum>::empty());
        assert(enc_fixed_list(Seq::<FixedDatum>::empty()) == Seq::<u8>::empty());
        assert(enc_fixed_list(s.push(x)) == enc_fixed_datum(x) + Seq::<u8>::empty());
        assert(enc_fixed_datum(x) + Seq::<u8>::empty() =~= Seq::<u8>::empty() + enc_fixed_datum(
            x,
        ));
    } else {
        assert(s.push(x)[0] == s[0]);
        assert(s.push(x).drop_first() =~= s.drop_first().push(x));
        lemma_enc_fixed_list_push(s.drop_first(), x);
        assert(enc_fixed_list(s.push(x)) == enc_fixed_datum(s[0]) + (enc_fixed_list(s.drop_first())
            + enc_fixed_datum(x)));
        assert(enc_fixed_datum(s[0]) + (enc_fixed_list(s.drop_first()) + enc_fixed_datum(x)) =~= (
        enc_fixed_datum(s[0]) + enc_fixed_list(s.drop_first())) + enc_fixed_datum(x));
    }
}

pub proof fn lemma_dec_enc_fixed_list(s: Seq<u8>, j: int, fds: Seq<FixedDatum>)
    requires
        bytes_at(s, j, enc_fixed_list(fds)),
    ensures
        forall|k: int| 0 <= k < fds.len() ==> dec_fixed_datum(s, j + 8 * k) == (#[trigger] fds[k]),
    decreases fds.len(),
{
    if fds.len() > 0 {
        lemma_enc_fixed_list_len(fds.drop_first());
        lemma_bytes_at_split(s, j, enc_fixed_datum(fds[0]), enc_fixed_list(fds.drop_first()));
        lemma_dec_enc_fixed_datum(s, j, fds[0]);
        lemma_dec_enc_fixed_list(s, j + 8, fds.drop_first());
        assert forall|k: int|
            0 <= k < fds.len() implies dec_fixed_datum(s, j + 8 * k) == (#[trigger] fds[k]) by {
            if k > 0 {
                assert(fds.drop_first()[k - 1] == fds[k]);
                assert(dec_fixed_datum(s, j + 8 + 8 * (k - 1)) == fds.drop_first()[k - 1]);
                assert(j + 8 + 8 * (k - 1) == j + 8 * k);
            }
        }
    }
}

/// The variable datum records, one padded encoding after the other.
pub open spec fn enc_var_list(s: Seq<VariableDatumV>) -> Seq<u8>
    decreases s.len(),
{
    if s.len() == 0 {
        Seq::empty()
    } else {
        enc_variable_datum(s[0]) + enc_var_list(s.drop_first())
    }
}

/// The bytes a variable datum list occupies on the wire.
pub open spec fn var_list_len(s: Seq<VariableDatumV>) -> int
    decreases s.len(),
{
    if s.len() == 0 {
        0
    } else {
        s[0].wire_len() + var_list_len(s.drop_first())
    }
}

pub open spec fn var_list_wf(s: Seq<VariableDatumV>) -> bool {
    forall|k: int| 0 <= k < s.len() ==> (#[trigger] s[k]).wf()
}

pub proof fn lemma_var_list_len_nonneg(s: Seq<VariableDatumV>)
    requires
        var_list_wf(s),
    ensures
        var_list_len(s) >= 0,
        s.len() > 0 ==> var_list_len(s) >= 8,
        enc_var_list(s).len() == var_list_len(s),
        var_list_len(s) % 8 == 0,
    decreases s.len(),
{
    if s.len() > 0 {
        lemma_enc_variable_datum_len(s[0]);
        assert(s.drop_first() =~= s.subrange(1, s.len() as int));
        assert forall|k: int|
            0 <= k < s.drop_first().len() implies (#[trigger] s.drop_first()[k]).wf() by {
            assert(s.drop_first()[k] == s[k + 1]);
        }
        lemma_var_list_len_nonneg(s.drop_first());
    }
}

pub proof fn lemma_var_list_skip_step(s: Seq<VariableDatumV>, k: int)
    requires
        0 <= k < s.len(),
    ensures
        var_list_len(s.skip(k)) == s[k].wire_len() + var_list_len(s.skip(k + 1)),
        enc_var_list(s.skip(k)) == enc_variable_datum(s[k]) + enc_var_list(s.skip(k + 1)),
{
    assert(s.skip(k).len() > 0);
    assert(s.skip(k)[0] == s[k]);
    assert(s.skip(k).drop_first() =~= s.skip(k + 1));
}

pub proof fn lemma_enc_var_list_push(s: Seq<VariableDatumV>, x: VariableDatumV)
    ensures
        enc_var_list(s.push(x)) == enc_var_list(s) + enc_variable_datum(x),
        var_list_len(s.push(x)) == var_list_len(s) + x.wire_len(),
    decreases s.len(),
{
    if s.len() == 0 {
        assert(s.push(x)[0] == x);
        assert(s.push(x).drop_first() =~= Seq::<VariableDatumV>::empty());
        assert(enc_var_list(Seq::<VariableDatumV>::empty()) == Seq::<u8>::empty());
        assert(var_list_len(Seq::<VariableDatumV>::empty()) == 0);
        assert(enc_var_list(s.push(x)) == enc_variable_datum(x) + Seq::<u8>::empty());
        assert(enc_variable_datum(x) + Seq::<u8>::empty() =~= Seq::<u8>::empty()
            + enc_variable_datum(x));
    } else {
        assert(s.push(x)[0] == s[0]);
        assert(s.push(x).drop_first() =~= s.drop_first().push(x));
        lemma_enc_var_list_push(s.drop_first(), x);
        assert(enc_var_list(s.push(x)) == enc_variable_datum(s[0]) + (enc_var_list(s.drop_first())
            + enc_variable_datum(x)));
        assert(enc_variable_datum(s[0]) + (enc_var_list(s.drop_first()) + enc_variable_datum(x))
            =~= (enc_variable_datum(s[0]) + enc_var_list(s.drop_first())) + enc_variable_datum(x));
    }
}

/// The variable datum list decoded from `count` consecutive records at `i`.
pub open spec fn dec_var_list(b: Seq<u8>, i: int, count: int) -> Seq<VariableDatumV>
    decreases count,
{
    if count <= 0 {
        Seq::empty()
    } else {
        seq![dec_variable_datum(b, i)] + dec_var_list(
            b,
            i + dec_variable_datum_wire_len(b, i),
            count - 1,
        )
    }
}

/// The bytes that `count` consecutive variable datum records at `i` occupy.
pub open spec fn dec_var_list_wire_len(b: Seq<u8>, i: int, count: int) -> int
    decreases count,
{
    if count <= 0 {
        0
    } else {
        dec_variable_datum_wire_len(b, i) + dec_var_list_wire_len(
            b,
            i + dec_variable_datum_wire_len(b, i),
            count - 1,
        )
    }
}

/// True when `count` consecutive variable datum records starting at `i` lie
/// within `b[..end]`.
pub open spec fn var_list_fits(b: Seq<u8>, i: int, count: int, end: int) -> bool
    decreases count,
{
    if count <= 0 {
        true
    } else {
        &&& i + 8 <= end
        &&& i + dec_variable_datum_wire_len(b, i) <= end
        &&& var_list_fits(b, i + dec_variable_datum_wire_len(b, i), count - 1, end)
    }
}

/// Decoding an encoded variable datum list gives the list back, record by
/// record, and consumes exactly its wire length.
pub proof fn lemma_dec_enc_var_list(s: Seq<u8>, j: int, vds: Seq<VariableDatumV>)
    requires
        var_list_wf(vds),
        bytes_at(s, j, enc_var_list(vds)),
    ensures
        dec_var_list(s, j, vds.len() as int) == vds,
        dec_var_list_wire_len(s, j, vds.len() as int) == var_list_len(vds),
        var_list_fits(s, j, vds.len() as int, j + enc_var_list(vds).len()),
    decreases vds.len(),
{
    lemma_var_list_len_nonneg(vds);
    if vds.len() > 0 {
        assert(vds.drop_first() =~= vds.subrange(1, vds.len() as int));
        assert forall|k: int|
            0 <= k < vds.drop_first().len() implies (#[trigger] vds.drop_first()[k]).wf() by {
            assert(vds.drop_first()[k] == vds[k + 1]);
        }
        lemma_var_list_len_nonneg(vds.drop_first());
        lemma_enc_variable_datum_len(vds[0]);
        lemma_bytes_at_split(s, j, enc_variable_datum(vds[0]), enc_var_list(vds.drop_first()));
        lemma_dec_enc_variable_datum(s, j, vds[0]);
        lemma_dec_enc_var_list(s, j + vds[0].wire_len(), vds.drop_first());
        assert(dec_var_list(s, j, vds.len() as int) =~= vds);
    }
}

/// Parses `count` variable datum records.
pub fn parse_var_list(input: &Vec<u8>, pos: usize, end: usize, count: u32) -> (r: Result<
    (Vec<VariableDatum>, usize),
    DisError,
>)
    requires
        end <= input@.len(),
        pos <= end,
    ensures
        r is Ok <==> var_list_fits(input@, pos as int, count as int, end as int),
        r matches Ok((v, n)) ==> v@.map_values(|d: VariableDatum| d@) == dec_var_list(
            input@,
            pos as int,
            count as int,
        ) && n == pos + dec_var_list_wire_len(input@, pos as int, count as int) && var_list_wf(
            v@.map_values(|d: VariableDatum| d@),
        ) && v@.len() == count,
        r matches Err(e) ==> e is InsufficientBytes,
{
    let mut out: Vec<VariableDatum> = Vec::new();
    let mut k: u32 = 0;
    let mut p: usize = pos;
    while k < count
        invariant
            end <= input@.len(),
            k <= count,
            p <= end,
            out@.len() == k,
            var_list_wf(out@.map_values(|d: VariableDatum| d@)),
            dec_var_list(input@, pos as int, count as int) =~= out@.map_values(
                |d: VariableDatum| d@,
            ) + dec_var_list(input@, p as int, count - k),
            dec_var_list_wire_len(input@, pos as int, count as int) == (p - pos)
                + dec_var_list_wire_len(input@, p as int, count - k),
            var_list_fits(input@, pos as int, count as int, end as int) == var_list_fits(
                input@,
                p as int,
                count - k,
                end as int,
            ),
        decreases count - k,
    {
        let ghost outv = out@.map_values(|d: VariableDatum| d@);
        let (d, p2) = match parse_variable_datum(input, p, end) {
            Ok(x) => x,
            Err(e) => {
                return Err(e);
            },
        };
        proof {
            assert(dec_var_list(input@, p as int, count - k) =~= seq![
                dec_variable_datum(input@, p as int),
            ] + dec_var_list(input@, p2 as int, count - k - 1));
            assert(out@.push(d).map_values(|x: VariableDatum| x@) =~= outv.push(d@));
            assert(outv + dec_var_list(input@, p as int, count - k) =~= outv.push(d@)
                + dec_var_list(input@, p2 as int, count - k - 1));
            assert forall|q: int|
                0 <= q < outv.push(d@).len() implies (#[trigger] outv.push(d@)[q]).wf() by {
                if q < outv.len() {
                    assert(outv.push(d@)[q] == outv[q]);
                }
            }
        }
        out.push(d);
        p = p2;
        k = k + 1;
    }
    proof {
        assert(dec_var_list(input@, p as int, 0) =~= Seq::<VariableDatumV>::empty());
        assert(out@.map_values(|d: VariableDatum| d@) + Seq::<VariableDatumV>::empty()
            =~= out@.map_values(|d: VariableDatum| d@));
    }
    Ok((out, p))
}

/// Serializes a variable datum list.
pub fn write_var_list(out: &mut Vec<u8>, v: &Vec<VariableDatum>)
    requires
        var_list_wf(v@.map_values(|d: VariableDatum| d@)),
    ensures
        final(out)@ == old(out)@ + enc_var_list(v@.map_values(|d: VariableDatum| d@)),
{
    let ghost all = v@.map_values(|d: VariableDatum| d@);
    let mut k: usize = 0;
    while k < v.len()
        invariant
            k <= v@.len(),
            all == v@.map_values(|d: VariableDatum| d@),
            var_list_wf(all),
            out@ =~= old(out)@ + enc_var_list(all.take(k as int)),
        decreases v@.len() - k,
    {
        assert(all[k as int] == v@[k as int]@);
        assert(all[k as int].wf());
        write_variable_datum(out, &v[k]);
        proof {
            assert(all.take(k + 1) =~= all.take(k as int).push(all[k as int]));
            lemma_enc_var_list_push(all.take(k as int), all[k as int]);
        }
        k = k + 1;
    }
    proof {
        assert(all.take(v@.len() as int) =~= all);
    }
    assert(final(out)@ =~= old(out)@ + enc_var_list(all));
}

/// Serializes a fixed datum list.
pub fn write_fixed_list(out: &mut Vec<u8>, v: &Vec<FixedDatum>)
    ensures
        final(out)@ == old(out)@ + enc_fixed_list(v@),
{
    let mut k: usize = 0;
    while k < v.len()
        invariant
            k <= v@.len(),
            out@ =~= old(out)@ + enc_fixed_list(v@.take(k as int)),
        decreases v@.len() - k,
    {
        write_fixed_datum(out, &v[k]);
        proof {
            assert(v@.take(k + 1) =~= v@.take(k as int).push(v@[k as int]));
            lemma_enc_fixed_list_push(v@.take(k as int), v@[k as int]);
        }
        k = k + 1;
    }
    proof {
        assert(v@.take(v@.len() as int) =~= v@);
    }
    assert(final(out)@ =~= old(out)@ + enc_fixed_list(v@));
}

/// Parses `count` fixed datum records.
pub fn parse_fixed_list(input: &Vec<u8>, pos: usize, end: usize, count: u32) -> (r: Result<
    (Vec<FixedDatum>, usize),
    DisError,
>)
    requires
        end <= input@.len(),
        pos <= end,
    ensures
        r is Ok <==> pos + 8 * (count as int) <= end,
        r matches Ok((v, n)) ==> v@.len() == count && n == pos + 8 * (count as int) && (forall|
            k: int,
        |
            0 <= k < count as int ==> (#[trigger] v@[k]) == dec_fixed_datum(input@, pos + 8 * k)),
        r matches Err(e) ==> e is InsufficientBytes,
{
    if ((end - pos) as u64) < 8 * (count as u64) {
        return Err(DisError::InsufficientBytes { needed: 8, available: end - pos });
    }
    let mut out: Vec<FixedDatum> = Vec::new();
    let mut k: u32 = 0;
    let mut p: usize = pos;
    while k < count
        invariant
            end <= input@.len(),
            pos + 8 * (count as int) <= end,
            k <= count,
            p == pos + 8 * (k as int),
            out@.len() == k,
            forall|q: int|
                0 <= q < k ==> (#[trigger] out@[q]) == dec_fixed_datum(input@, pos + 8 * q),
        decreases count - k,
    {
        let (d, p2) = match parse_fixed_datum(input, p, end) {
            Ok(x) => x,
            Err(e) => {
                return Err(e);
            },
        };
        out.push(d);
        p = p2;
        k = k + 1;
    }
    Ok((out, p))
}

// ---------------------------------------------------------------------------
// Acknowledge
// ---------------------------------------------------------------------------

pub const ACKNOWLEDGE_BODY_LEN: usize = 20;

/// The Acknowledge PDU body.
#[derive(Clone, Copy, Debug, PartialEq, Eq, Structural, Default)]
pub struct Acknowledge {
    pub originating_id: EntityId,
    pub receiving_id: EntityId,
    pub acknowledge_flag: AcknowledgeFlag,
    pub response_flag: ResponseFlag,
    pub request_id: u32,
}

impl Acknowledge {
    pub open spec fn wf(self) -> bool {
        self.acknowledge_flag.wf() && self.response_flag.wf()
    }

    /// The bytes this body occupies on the wire.
    pub fn body_length(&self) -> (r: u16)
        ensures
            r == ACKNOWLEDGE_BODY_LEN,
    {
        20
    }
}

pub open spec fn enc_acknowledge(a: Acknowledge) -> Seq<u8> {
    enc_entity_id(a.originating_id) + enc_entity_id(a.receiving_id) + enc_u16(
        a.acknowledge_flag.raw(),
    ) + enc_u16(a.response_flag.raw()) + enc_u32(a.request_id)
}

pub open spec fn dec_acknowledge(b: Seq<u8>, i: int) -> Acknowledge {
    Acknowledge {
        originating_id: dec_entity_id(b, i),
        receiving_id: dec_entity_id(b, i + 6),
        acknowledge_flag: AcknowledgeFlag::from_raw(dec_u16(b, i + 12)),
        response_flag: ResponseFlag::from_raw(dec_u16(b, i + 14)),
        request_id: dec_u32(b, i + 16),
    }
}

pub proof fn lemma_dec_enc_acknowledge(s: Seq<u8>, i: int, a: Acknowledge)
    requires
        a.wf(),
        bytes_at(s, i, enc_acknowledge(a)),
    ensures
        dec_acknowledge(s, i) == a,
{
    let c0 = enc_entity_id(a.originating_id);
    let c1 = enc_entity_id(a.receiving_id);
    let c2 = enc_u16(a.acknowledge_flag.raw());
    let c3 = enc_u16(a.response_flag.raw());
    let c4 = enc_u32(a.request_id);
    lemma_bytes_at_split(s, i, c0 + c1 + c2 + c3, c4);
    lemma_bytes_at_split(s, i, c0 + c1 + c2, c3);
    lemma_bytes_at_split(s, i, c0 + c1, c2);
    lemma_bytes_at_split(s, i, c0, c1);
    lemma_dec_enc_entity_id(s, i, a.originating_id);
    lemma_dec_enc_entity_id(s, i + 6, a.receiving_id);
    lemma_dec_enc_u16(s, i + 12, a.acknowledge_flag.raw());
    lemma_dec_enc_u16(s, i + 14, a.response_flag.raw());
    lemma_dec_enc_u32(s, i + 16, a.request_id);
}

pub fn parse_acknowledge_body(input: &Vec<u8>, pos: usize, end: usize) -> (r: Result<
    (Acknowledge, usize),
    DisError,
>)
    requires
        end <= input@.len(),
    ensures
        r is Ok <==> pos + ACKNOWLEDGE_BODY_LEN <= end,
        r matches Ok((v, n)) ==> v == dec_acknowledge(input@, pos as int) && n == pos
            + ACKNOWLEDGE_BODY_LEN && v.wf(),
        r matches Err(e) ==> e is InsufficientBytes,
{
    let (originating_id, p) = match parse_entity_id(input, pos, end) {
        Ok(x) => x,
        Err(e) => {
            return Err(e);
        },
    };
    let (receiving_id, p) = match parse_entity_id(input, p, end) {
        Ok(x) => x,
        Err(e) => {
            return Err(e);
        },
    };
    let (ack_raw, p) = match read_u16(input, p, end) {
        Ok(x) => x,
        Err(e) => {
            return Err(e);
        },
    };
    let (resp_raw, p) = match read_u16(input, p, end) {
        Ok(x) => x,
        Err(e) => {
            return Err(e);
        },
    };
    let (request_id, p) = match read_u32(input, p, end) {
        Ok(x) => x,
        Err(e) => {
            return Err(e);
        },
    };
    Ok((Acknowledge {
        originating_id,
        receiving_id,
        acknowledge_flag: AcknowledgeFlag::from_u16(ack_raw),
        response_flag: ResponseFlag::from_u16(resp_raw),
        request_id,
    }, p))
}

pub fn write_acknowledge_body(out: &mut Vec<u8>, a: &Acknowledge)
    ensures
        final(out)@ == old(out)@ + enc_acknowledge(*a),
{
    write_entity_id(out, &a.originating_id);
    write_entity_id(out, &a.receiving_id);
    write_u16(out, a.acknowledge_flag.to_u16());
    write_u16(out, a.response_flag.to_u16());
    write_u32(out, a.request_id);
    assert(final(out)@ =~= old(out)@ + enc_acknowledge(*a));
}

/// Builder for an Acknowledge body.
#[derive(Clone, Copy, Debug, PartialEq, Eq, Structural)]
pub struct AcknowledgeBuilder {
    pub originating_id: Option<EntityId>,
    pub receiving_id: Option<EntityId>,
    pub acknowledge_flag: Option<AcknowledgeFlag>,
    pub response_flag: Option<ResponseFlag>,
    pub request_id: Option<u32>,
}

impl AcknowledgeBuilder {
    pub fn new() -> (r: Self)
        ensures
            r.originating_id is None,
            r.receiving_id is None,
            r.acknowledge_flag is None,
            r.response_flag is None,
            r.request_id is None,
    {
        AcknowledgeBuilder {
            originating_id: None,
            receiving_id: None,
            acknowledge_flag: None,
            response_flag: None,
            request_id: None,
        }
    }

    /// A builder carrying every field of an existing body.
    pub fn new_from_body(body: Acknowledge) -> (r: Self)
        ensures
            r.originating_id == Some(body.originating_id),
            r.receiving_id == Some(body.receiving_id),
            r.acknowledge_flag == Some(body.acknowledge_flag),
            r.response_flag == Some(body.response_flag),
            r.request_id == Some(body.request_id),
    {
        AcknowledgeBuilder {
            originating_id: Some(body.originating_id),
            receiving_id: Some(body.receiving_id),
            acknowledge_flag: Some(body.acknowledge_flag),
            response_flag: Some(body.response_flag),
            request_id: Some(body.request_id),
        }
    }

    pub fn originating_id(self, originating_id: EntityId) -> (r: Self)
        ensures
            r == (Self { originating_id: Some(originating_id), ..self }),
    {
        Self { originating_id: Some(originating_id), ..self }
    }

    pub fn receiving_id(self, receiving_id: EntityId) -> (r: Self)
        ensures
            r == (Self { receiving_id: Some(receiving_id), ..self }),
    {
        Self { receiving_id: Some(receiving_id), ..self }
    }

    pub fn acknowledge_flag(self, acknowledge_flag: AcknowledgeFlag) -> (r: Self)
        ensures
            r == (Self { acknowledge_flag: Some(acknowledge_flag), ..self }),
    {
        Self { acknowledge_flag: Some(acknowledge_flag), ..self }
    }

    pub fn response_flag(self, response_flag: ResponseFlag) -> (r: Self)
        ensures
            r == (Self { response_flag: Some(response_flag), ..self }),
    {
        Self { response_flag: Some(response_flag), ..self }
    }

    pub fn request_id(self, request_id: u32) -> (r: Self)
        ensures
            r == (Self { request_id: Some(request_id), ..self }),
    {
        Self { request_id: Some(request_id), ..self }
    }

    /// Builds the body; every field must have been set.
    pub fn build(self) -> (r: Result<Acknowledge, DisError>)
        ensures
            r is Ok <==> self.originating_id is Some && self.receiving_id is Some
                && self.acknowledge_flag is Some && self.response_flag is Some && self.request_id
                is Some,
            r matches Ok(v) ==> v == (Acknowledge {
                originating_id: self.originating_id->0,
                receiving_id: self.receiving_id->0,
                acknowledge_flag: self.acknowledge_flag->0,
                response_flag: self.response_flag->0,
                request_id: self.request_id->0,
            }),
            r matches Err(e) ==> e == DisError::MissingField,
    {
        let originating_id = match self.originating_id {
            Some(x) => x,
            None => {
                return Err(DisError::MissingField);
            },
        };
        let receiving_id = match self.receiving_id {
            Some(x) => x,
            None => {
                return Err(DisError::MissingField);
            },
        };
        let acknowledge_flag = match self.acknowledge_flag {
            Some(x) => x,
            None => {
                return Err(DisError::MissingField);
            },
        };
        let response_flag = match self.response_flag {
            Some(x) => x,
            None => {
                return Err(DisError::MissingField);
            },
        };
        let request_id = match self.request_id {
            Some(x) => x,
            None => {
                return Err(DisError::MissingField);
            },
        };
        Ok(Acknowledge { originating_id, receiving_id, acknowledge_flag, response_flag, request_id })
    }
}

impl Acknowledge {
    /// A fresh builder with no field set.
    pub fn builder() -> (r: AcknowledgeBuilder)
        ensures
            r.originating_id is None,
            r.receiving_id is None,
            r.acknowledge_flag is None,
            r.response_flag is None,
            r.request_id is None,
    {
        AcknowledgeBuilder::new()
    }

    /// A builder carrying every field of this body.
    pub fn into_builder(self) -> (r: AcknowledgeBuilder)
        ensures
            r.originating_id == Some(self.originating_id),
            r.receiving_id == Some(self.receiving_id),
            r.acknowledge_flag == Some(self.acknowledge_flag),
            r.response_flag == Some(self.response_flag),
            r.request_id == Some(self.request_id),
    {
        AcknowledgeBuilder::new_from_body(self)
    }
}


// ---------------------------------------------------------------------------
// Action Request and Action Response
// ---------------------------------------------------------------------------

pub const BASE_ACTION_REQUEST_BODY_LEN: usize = 28;

/// The Action Request PDU body.
#[derive(Clone, Debug, PartialEq, Eq, Default)]
pub struct ActionRequest {
    pub originating_id: EntityId,
    pub receiving_id: EntityId,
    pub request_id: u32,
    pub action_id: ActionId,
    pub fixed_datum_records: Vec<FixedDatum>,
    pub variable_datum_records: Vec<VariableDatum>,
}

/// The mathematical model of an Action Request body.
pub struct ActionRequestV {
    pub originating_id: EntityId,
    pub receiving_id: EntityId,
    pub request_id: u32,
    pub action_id: ActionId,
    pub fixed_datum_records: Seq<FixedDatum>,
    pub variable_datum_records: Seq<VariableDatumV>,
}

impl View for ActionRequest {
    type V = ActionRequestV;

    open spec fn view(&self) -> ActionRequestV {
        ActionRequestV {
            originating_id: self.originating_id,
            receiving_id: self.receiving_id,
            request_id: self.request_id,
            action_id: self.action_id,
            fixed_datum_records: self.fixed_datum_records@,
            variable_datum_records: self.variable_datum_records@.map_values(
                |d: VariableDatum| d@,
            ),
        }
    }
}

impl ActionRequestV {
    /// The enumerated field is well-formed, each list fits its 32-bit count,
    /// and every variable datum fits its length field.
    pub open spec fn wf(self) -> bool {
        &&& self.action_id.wf()
        &&& self.fixed_datum_records.len() <= u32::MAX
        &&& self.variable_datum_records.len() <= u32::MAX
        &&& var_list_wf(self.variable_datum_records)
    }

    /// The bytes this body occupies on the wire.
    pub open spec fn body_len(self) -> int {
        28 + 8 * self.fixed_datum_records.len() as int + var_list_len(self.variable_datum_records)
    }
}

pub open spec fn enc_action_request(v: ActionRequestV) -> Seq<u8> {
    enc_entity_id(v.originating_id) + enc_entity_id(v.receiving_id) + enc_u32(v.request_id)
        + enc_u32(v.action_id.raw()) + enc_u32(v.fixed_datum_records.len() as u32) + enc_u32(
        v.variable_datum_records.len() as u32,
    ) + enc_fixed_list(v.fixed_datum_records) + enc_var_list(v.variable_datum_records)
}

pub open spec fn dec_action_request(b: Seq<u8>, i: int) -> ActionRequestV {
    let nf = dec_u32(b, i + 20) as int;
    let nv = dec_u32(b, i + 24) as int;
    ActionRequestV {
        originating_id: dec_entity_id(b, i),
        receiving_id: dec_entity_id(b, i + 6),
        request_id: dec_u32(b, i + 12),
        action_id: ActionId::from_raw(dec_u32(b, i + 16)),
        fixed_datum_records: Seq::new(nf as nat, |k: int| dec_fixed_datum(b, i + 28 + 8 * k)),
        variable_datum_records: dec_var_list(b, i + 28 + 8 * nf, nv),
    }
}

/// The bytes the Action Request body at `i` occupies per its own counts.
pub open spec fn ar_wire_len(b: Seq<u8>, i: int) -> int {
    let nf = dec_u32(b, i + 20) as int;
    let nv = dec_u32(b, i + 24) as int;
    28 + 8 * nf + dec_var_list_wire_len(b, i + 28 + 8 * nf, nv)
}

/// True when the whole Action Request body at `i` lies within `b[..end]`.
pub open spec fn ar_fits(b: Seq<u8>, i: int, end: int) -> bool {
    let nf = dec_u32(b, i + 20) as int;
    let nv = dec_u32(b, i + 24) as int;
    &&& i + 28 <= end
    &&& i + 28 + 8 * nf <= end
    &&& var_list_fits(b, i + 28 + 8 * nf, nv, end)
}

pub const BASE_ACTION_RESPONSE_BODY_LEN: usize = 28;

/// The Action Response PDU body.
#[derive(Clone, Debug, PartialEq, Eq, Default)]
pub struct ActionResponse {
    pub originating_id: EntityId,
    pub receiving_id: EntityId,
    pub request_id: u32,
    pub request_status: RequestStatus,
    pub fixed_datum_records: Vec<FixedDatum>,
    pub variable_datum_records: Vec<VariableDatum>,
}

/// The mathematical model of an Action Response body.
pub struct ActionResponseV {
    pub originating_id: EntityId,
    pub receiving_id: EntityId,
    pub request_id: u32,
    pub request_status: RequestStatus,
    pub fixed_datum_records: Seq<FixedDatum>,
    pub variable_datum_records: Seq<VariableDatumV>,
}

impl View for ActionResponse {
    type V = ActionResponseV;

    open spec fn view(&self) -> ActionResponseV {
        ActionResponseV {
            originating_id: self.originating_id,
            receiving_id: self.receiving_id,
            request_id: self.request_id,
            request_status: self.request_status,
            fixed_datum_records: self.fixed_datum_records@,
            variable_datum_records: self.variable_datum_records@.map_values(
                |d: VariableDatum| d@,
            ),
        }
    }
}

impl ActionResponseV {
    /// The enumerated field is well-formed, each list fits its 32-bit count,
    /// and every variable datum fits its length field.
    pub open spec fn wf(self) -> bool {
        &&& self.request_status.wf()
        &&& self.fixed_datum_records.len() <= u32::MAX
        &&& self.variable_datum_records.len() <= u32::MAX
        &&& var_list_wf(self.variable_datum_records)
    }

    /// The bytes this body occupies on the wire.
    pub open spec fn body_len(self) -> int {
        28 + 8 * self.fixed_datum_records.len() as int + var_list_len(self.variable_datum_records)
    }
}

pub open spec fn enc_action_response(v: ActionResponseV) -> Seq<u8> {
    enc_entity_id(v.originating_id) + enc_entity_id(v.receiving_id) + enc_u32(v.request_id)
        + enc_u32(v.request_status.raw()) + enc_u32(v.fixed_datum_records.len() as u32) + enc_u32(
        v.variable_datum_records.len() as u32,
    ) + enc_fixed_list(v.fixed_datum_records) + enc_var_list(v.variable_datum_records)
}

pub open spec fn dec_action_response(b: Seq<u8>, i: int) -> ActionResponseV {
    let nf = dec_u32(b, i + 20) as int;
    let nv = dec_u32(b, i + 24) as int;
    ActionResponseV {
        originating_id: dec_entity_id(b, i),
        receiving_id: dec_entity_id(b, i + 6),
        request_id: dec_u32(b, i + 12),
        request_status: RequestStatus::from_raw(dec_u32(b, i + 16)),
        fixed_datum_records: Seq::new(nf as nat, |k: int| dec_fixed_datum(b, i + 28 + 8 * k)),
        variable_datum_records: dec_var_list(b, i + 28 + 8 * nf, nv),
    }
}

/// The bytes the Action Response body at `i` occupies per its own counts.
pub open spec fn aresp_wire_len(b: Seq<u8>, i: int) -> int {
    let nf = dec_u32(b, i + 20) as int;
    let nv = dec_u32(b, i + 24) as int;
    28 + 8 * nf + dec_var_list_wire_len(b, i + 28 + 8 * nf, nv)
}

/// True when the whole Action Response body at `i` lies within `b[..end]`.
pub open spec fn aresp_fits(b: Seq<u8>, i: int, end: int) -> bool {
    let nf = dec_u32(b, i + 20) as int;
    let nv = dec_u32(b, i + 24) as int;
    &&& i + 28 <= end
    &&& i + 28 + 8 * nf <= end
    &&& var_list_fits(b, i + 28 + 8 * nf, nv, end)
}


/// The shared length computation for the two action bodies: 28 bytes plus the
/// fixed datum records plus the padded variable datum records.
fn datum_lists_length(fixed: &Vec<FixedDatum>, variable: &Vec<VariableDatum>) -> (r: u16)
    requires
        var_list_wf(variable@.map_values(|d: VariableDatum| d@)),
        28 + 8 * fixed@.len() as int + var_list_len(
            variable@.map_values(|d: VariableDatum| d@),
        ) <= u16::MAX,
    ensures
        r == 28 + 8 * fixed@.len() as int + var_list_len(
            variable@.map_values(|d: VariableDatum| d@),
        ),
{
    let ghost vall = variable@.map_values(|d: VariableDatum| d@);
    proof {
        lemma_var_list_len_nonneg(vall);
        assert(vall.skip(0) =~= vall);
    }
    let mut total: u64 = 28 + 8 * (fixed.len() as u64);
    let mut k: usize = 0;
    while k < variable.len()
        invariant
            vall == variable@.map_values(|d: VariableDatum| d@),
            var_list_wf(vall),
            k <= vall.len(),
            total + var_list_len(vall.skip(k as int)) == 28 + 8 * fixed@.len() as int
                + var_list_len(vall),
            28 + 8 * fixed@.len() as int + var_list_len(vall) <= u16::MAX,
            total <= u16::MAX,
        decreases vall.len() - k,
    {
        proof {
            lemma_var_list_skip_step(vall, k as int);
            assert(vall.skip(k + 1) =~= vall.skip(k as int).skip(1));
            assert forall|q: int|
                0 <= q < vall.skip(k + 1).len() implies (#[trigger] vall.skip(k + 1)[q]).wf() by {
                assert(vall.skip(k + 1)[q] == vall[q + k + 1]);
            }
            lemma_var_list_len_nonneg(vall.skip(k + 1));
            assert(vall[k as int] == variable@[k as int]@);
            crate::bytes::lemma_pad8(8 + variable@[k as int]@.datum_value.len() as int);
        }
        let d = &variable[k];
        let (padded, _) = crate::bytes::length_padded_to_eight(8 + d.datum_value.len());
        total = total + (padded as u64);
        k = k + 1;
    }
    proof {
        assert(vall.skip(vall.len() as int) =~= Seq::<VariableDatumV>::empty());
    }
    total as u16
}

pub proof fn lemma_dec_enc_action_request(s: Seq<u8>, i: int, v: ActionRequestV)
    requires
        v.wf(),
        bytes_at(s, i, enc_action_request(v)),
    ensures
        dec_action_request(s, i) == v,
        ar_wire_len(s, i) == v.body_len(),
        ar_fits(s, i, i + v.body_len()),
{
    let nf = v.fixed_datum_records.len() as int;
    let nv = v.variable_datum_records.len() as int;
    let c0 = enc_entity_id(v.originating_id);
    let c1 = enc_entity_id(v.receiving_id);
    let c2 = enc_u32(v.request_id);
    let c3 = enc_u32(v.action_id.raw());
    let c4 = enc_u32(v.fixed_datum_records.len() as u32);
    let c5 = enc_u32(v.variable_datum_records.len() as u32);
    let c6 = enc_fixed_list(v.fixed_datum_records);
    let c7 = enc_var_list(v.variable_datum_records);
    lemma_enc_fixed_list_len(v.fixed_datum_records);
    lemma_var_list_len_nonneg(v.variable_datum_records);
    lemma_bytes_at_split(s, i, c0 + c1 + c2 + c3 + c4 + c5 + c6, c7);
    lemma_bytes_at_split(s, i, c0 + c1 + c2 + c3 + c4 + c5, c6);
    lemma_bytes_at_split(s, i, c0 + c1 + c2 + c3 + c4, c5);
    lemma_bytes_at_split(s, i, c0 + c1 + c2 + c3, c4);
    lemma_bytes_at_split(s, i, c0 + c1 + c2, c3);
    lemma_bytes_at_split(s, i, c0 + c1, c2);
    lemma_bytes_at_split(s, i, c0, c1);
    lemma_dec_enc_entity_id(s, i, v.originating_id);
    lemma_dec_enc_entity_id(s, i + 6, v.receiving_id);
    lemma_dec_enc_u32(s, i + 12, v.request_id);
    lemma_dec_enc_u32(s, i + 16, v.action_id.raw());
    lemma_dec_enc_u32(s, i + 20, v.fixed_datum_records.len() as u32);
    lemma_dec_enc_u32(s, i + 24, v.variable_datum_records.len() as u32);
    lemma_dec_enc_fixed_list(s, i + 28, v.fixed_datum_records);
    assert(Seq::new(nf as nat, |k: int| dec_fixed_datum(s, i + 28 + 8 * k))
        =~= v.fixed_datum_records);
    lemma_dec_enc_var_list(s, i + 28 + 8 * nf, v.variable_datum_records);
}

/// Parses an Action Request body at `pos`, datum lists included.
pub fn parse_action_request_body(input: &Vec<u8>, pos: usize, end: usize) -> (r: Result<
    (ActionRequest, usize),
    DisError,
>)
    requires
        end <= input@.len(),
    ensures
        r is Ok <==> ar_fits(input@, pos as int, end as int),
        r matches Ok((v, n)) ==> v@ == dec_action_request(input@, pos as int) && n == pos
            + ar_wire_len(input@, pos as int) && v@.wf(),
        r matches Err(e) ==> e is InsufficientBytes,
{
    let (originating_id, p) = match parse_entity_id(input, pos, end) {
        Ok(x) => x,
        Err(e) => {
            return Err(e);
        },
    };
    let (receiving_id, p) = match parse_entity_id(input, p, end) {
        Ok(x) => x,
        Err(e) => {
            return Err(e);
        },
    };
    let (request_id, p) = match read_u32(input, p, end) {
        Ok(x) => x,
        Err(e) => {
            return Err(e);
        },
    };
    let (action_raw, p) = match read_u32(input, p, end) {
        Ok(x) => x,
        Err(e) => {
            return Err(e);
        },
    };
    let (nf, p) = match read_u32(input, p, end) {
        Ok(x) => x,
        Err(e) => {
            return Err(e);
        },
    };
    let (nv, p) = match read_u32(input, p, end) {
        Ok(x) => x,
        Err(e) => {
            return Err(e);
        },
    };
    let (fixed_datum_records, p) = match parse_fixed_list(input, p, end, nf) {
        Ok(x) => x,
        Err(e) => {
            return Err(e);
        },
    };
    let (variable_datum_records, p) = match parse_var_list(input, p, end, nv) {
        Ok(x) => x,
        Err(e) => {
            return Err(e);
        },
    };
    let body = ActionRequest {
        originating_id,
        receiving_id,
        request_id,
        action_id: ActionId::from_u32(action_raw),
        fixed_datum_records,
        variable_datum_records,
    };
    proof {
        assert(body@.fixed_datum_records =~= Seq::new(
            nf as nat,
            |k: int| dec_fixed_datum(input@, pos + 28 + 8 * k),
        ));
        assert(body@ == dec_action_request(input@, pos as int));
    }
    Ok((body, p))
}

/// Serializes an Action Request body.
pub fn write_action_request_body(out: &mut Vec<u8>, v: &ActionRequest)
    requires
        v@.wf(),
    ensures
        final(out)@ == old(out)@ + enc_action_request(v@),
{
    write_entity_id(out, &v.originating_id);
    write_entity_id(out, &v.receiving_id);
    write_u32(out, v.request_id);
    write_u32(out, v.action_id.to_u32());
    write_u32(out, v.fixed_datum_records.len() as u32);
    write_u32(out, v.variable_datum_records.len() as u32);
    write_fixed_list(out, &v.fixed_datum_records);
    write_var_list(out, &v.variable_datum_records);
    assert(final(out)@ =~= old(out)@ + enc_action_request(v@));
}

impl ActionRequest {
    /// The bytes this body occupies on the wire: the 28-byte prefix plus both
    /// datum lists, the variable one with its padding.
    pub fn body_length(&self) -> (r: u16)
        requires
            self@.wf(),
            self@.body_len() <= u16::MAX,
        ensures
            r == self@.body_len(),
    {
        datum_lists_length(&self.fixed_datum_records, &self.variable_datum_records)
    }
}

pub proof fn lemma_dec_enc_action_response(s: Seq<u8>, i: int, v: ActionResponseV)
    requires
        v.wf(),
        bytes_at(s, i, enc_action_response(v)),
    ensures
        dec_action_response(s, i) == v,
        aresp_wire_len(s, i) == v.body_len(),
        aresp_fits(s, i, i + v.body_len()),
{
    let nf = v.fixed_datum_records.len() as int;
    let nv = v.variable_datum_records.len() as int;
    let c0 = enc_entity_id(v.originating_id);
    let c1 = enc_entity_id(v.receiving_id);
    let c2 = enc_u32(v.request_id);
    let c3 = enc_u32(v.request_status.raw());
    let c4 = enc_u32(v.fixed_datum_records.len() as u32);
    let c5 = enc_u32(v.variable_datum_records.len() as u32);
    let c6 = enc_fixed_list(v.fixed_datum_records);
    let c7 = enc_var_list(v.variable_datum_records);
    lemma_enc_fixed_list_len(v.fixed_datum_records);
    lemma_var_list_len_nonneg(v.variable_datum_records);
    lemma_bytes_at_split(s, i, c0 + c1 + c2 + c3 + c4 + c5 + c6, c7);
    lemma_bytes_at_split(s, i, c0 + c1 + c2 + c3 + c4 + c5, c6);
    lemma_bytes_at_split(s, i, c0 + c1 + c2 + c3 + c4, c5);
    lemma_bytes_at_split(s, i, c0 + c1 + c2 + c3, c4);
    lemma_bytes_at_split(s, i, c0 + c1 + c2, c3);
    lemma_bytes_at_split(s, i, c0 + c1, c2);
    lemma_bytes_at_split(s, i, c0, c1);
    lemma_dec_enc_entity_id(s, i, v.originating_id);
    lemma_dec_enc_entity_id(s, i + 6, v.receiving_id);
    lemma_dec_enc_u32(s, i + 12, v.request_id);
    lemma_dec_enc_u32(s, i + 16, v.request_status.raw());
    lemma_dec_enc_u32(s, i + 20, v.fixed_datum_records.len() as u32);
    lemma_dec_enc_u32(s, i + 24, v.variable_datum_records.len() as u32);
    lemma_dec_enc_fixed_list(s, i + 28, v.fixed_datum_records);
    assert(Seq::new(nf as nat, |k: int| dec_fixed_datum(s, i + 28 + 8 * k))
        =~= v.fixed_datum_records);
    lemma_dec_enc_var_list(s, i + 28 + 8 * nf, v.variable_datum_records);
}

/// Parses an Action Response body at `pos`, datum lists included.
pub fn parse_action_response_body(input: &Vec<u8>, pos: usize, end: usize) -> (r: Result<
    (ActionResponse, usize),
    DisError,
>)
    requires
        end <= input@.len(),
    ensures
        r is Ok <==> aresp_fits(input@, pos as int, end as int),
        r matches Ok((v, n)) ==> v@ == dec_action_response(input@, pos as int) && n == pos
            + aresp_wire_len(input@, pos as int) && v@.wf(),
        r matches Err(e) ==> e is InsufficientBytes,
{
    let (originating_id, p) = match parse_entity_id(input, pos, end) {
        Ok(x) => x,
        Err(e) => {
            return Err(e);
        },
    };
    let (receiving_id, p) = match parse_entity_id(input, p, end) {
        Ok(x) => x,
        Err(e) => {
            return Err(e);
        },
    };
    let (request_id, p) = match read_u32(input, p, end) {
        Ok(x) => x,
        Err(e) => {
            return Err(e);
        },
    };
    let (status_raw, p) = match read_u32(input, p, end) {
        Ok(x) => x,
        Err(e) => {
            return Err(e);
        },
    };
    let (nf, p) = match read_u32(input, p, end) {
        Ok(x) => x,
        Err(e) => {
            return Err(e);
        },
    };
    let (nv, p) = match read_u32(input, p, end) {
        Ok(x) => x,
        Err(e) => {
            return Err(e);
        },
    };
    let (fixed_datum_records, p) = match parse_fixed_list(input, p, end, nf) {
        Ok(x) => x,
        Err(e) => {
            return Err(e);
        },
    };
    let (variable_datum_records, p) = match parse_var_list(input, p, end, nv) {
        Ok(x) => x,
        Err(e) => {
            return Err(e);
        },
    };
    let body = ActionResponse {
        originating_id,
        receiving_id,
        request_id,
        request_status: RequestStatus::from_u32(status_raw),
        fixed_datum_records,
        variable_datum_records,
    };
    proof {
        assert(body@.fixed_datum_records =~= Seq::new(
            nf as nat,
            |k: int| dec_fixed_datum(input@, pos + 28 + 8 * k),
        ));
        assert(body@ == dec_action_response(input@, pos as int));
    }
    Ok((body, p))
}

/// Serializes an Action Response body.
pub fn write_action_response_body(out: &mut Vec<u8>, v: &ActionResponse)
    requires
        v@.wf(),
    ensures
        final(out)@ == old(out)@ + enc_action_response(v@),
{
    write_entity_id(out, &v.originating_id);
    write_entity_id(out, &v.receiving_id);
    write_u32(out, v.request_id);
    write_u32(out, v.request_status.to_u32());
    write_u32(out, v.fixed_datum_records.len() as u32);
    write_u32(out, v.variable_datum_records.len() as u32);
    write_fixed_list(out, &v.fixed_datum_records);
    write_var_list(out, &v.variable_datum_records);
    assert(final(out)@ =~= old(out)@ + enc_action_response(v@));
}

impl ActionResponse {
    /// The bytes this body occupies on the wire: the 28-byte prefix plus both
    /// datum lists, the variable one with its padding.
    pub fn body_length(&self) -> (r: u16)
        requires
            self@.wf(),
            self@.body_len() <= u16::MAX,
        ensures
            r == self@.body_len(),
    {
        datum_lists_length(&self.fixed_datum_records, &self.variable_datum_records)
    }
}


/// Builder for an Action Request body; the datum lists default to empty.
#[derive(Clone, Debug, PartialEq, Eq)]
pub struct ActionRequestBuilder {
    pub originating_id: Option<EntityId>,
    pub receiving_id: Option<EntityId>,
    pub request_id: Option<u32>,
    pub action_id: Option<ActionId>,
    pub fixed_datum_records: Vec<FixedDatum>,
    pub variable_datum_records: Vec<VariableDatum>,
}

impl ActionRequestBuilder {
    pub fn new() -> (r: Self)
        ensures
            r.originating_id is None,
            r.receiving_id is None,
            r.request_id is None,
            r.action_id is None,
            r.fixed_datum_records@ == Seq::<FixedDatum>::empty(),
            r.variable_datum_records@ == Seq::<VariableDatum>::empty(),
    {
        ActionRequestBuilder {
            originating_id: None,
            receiving_id: None,
            request_id: None,
            action_id: None,
            fixed_datum_records: Vec::new(),
            variable_datum_records: Vec::new(),
        }
    }

    /// A builder carrying every field of an existing body.
    pub fn new_from_body(body: ActionRequest) -> (r: Self)
        ensures
            r.originating_id == Some(body.originating_id),
            r.receiving_id == Some(body.receiving_id),
            r.request_id == Some(body.request_id),
            r.action_id == Some(body.action_id),
            r.fixed_datum_records == body.fixed_datum_records,
            r.variable_datum_records == body.variable_datum_records,
    {
        ActionRequestBuilder {
            originating_id: Some(body.originating_id),
            receiving_id: Some(body.receiving_id),
            request_id: Some(body.request_id),
            action_id: Some(body.action_id),
            fixed_datum_records: body.fixed_datum_records,
            variable_datum_records: body.variable_datum_records,
        }
    }

    pub fn originating_id(self, originating_id: EntityId) -> (r: Self)
        ensures
            r == (Self { originating_id: Some(originating_id), ..self }),
    {
        Self { originating_id: Some(originating_id), ..self }
    }

    pub fn receiving_id(self, receiving_id: EntityId) -> (r: Self)
        ensures
            r == (Self { receiving_id: Some(receiving_id), ..self }),
    {
        Self { receiving_id: Some(receiving_id), ..self }
    }

    pub fn request_id(self, request_id: u32) -> (r: Self)
        ensures
            r == (Self { request_id: Some(request_id), ..self }),
    {
        Self { request_id: Some(request_id), ..self }
    }

    pub fn action_id(self, action_id: ActionId) -> (r: Self)
        ensures
            r == (Self { action_id: Some(action_id), ..self }),
    {
        Self { action_id: Some(action_id), ..self }
    }

    pub fn with_fixed_datums(self, fixed_datum_records: Vec<FixedDatum>) -> (r: Self)
        ensures
            r == (Self { fixed_datum_records, ..self }),
    {
        Self { fixed_datum_records, ..self }
    }

    pub fn with_variable_datums(self, variable_datum_records: Vec<VariableDatum>) -> (r: Self)
        ensures
            r == (Self { variable_datum_records, ..self }),
    {
        Self { variable_datum_records, ..self }
    }

    /// Builds the body; every scalar field must have been set.
    pub fn build(self) -> (r: Result<ActionRequest, DisError>)
        ensures
            r is Ok <==> self.originating_id is Some && self.receiving_id is Some
                && self.request_id is Some && self.action_id is Some,
            r matches Ok(v) ==> v == (ActionRequest {
                originating_id: self.originating_id->0,
                receiving_id: self.receiving_id->0,
                request_id: self.request_id->0,
                action_id: self.action_id->0,
                fixed_datum_records: self.fixed_datum_records,
                variable_datum_records: self.variable_datum_records,
            }),
            r matches Err(e) ==> e == DisError::MissingField,
    {
        let originating_id = match self.originating_id {
            Some(x) => x,
            None => {
                return Err(DisError::MissingField);
            },
        };
        let receiving_id = match self.receiving_id {
            Some(x) => x,
            None => {
                return Err(DisError::MissingField);
            },
        };
        let request_id = match self.request_id {
            Some(x) => x,
            None => {
                return Err(DisError::MissingField);
            },
        };
        let action_id = match self.action_id {
            Some(x) => x,
            None => {
                return Err(DisError::MissingField);
            },
        };
        Ok(ActionRequest {
            originating_id,
            receiving_id,
            request_id,
            action_id,
            fixed_datum_records: self.fixed_datum_records,
            variable_datum_records: self.variable_datum_records,
        })
    }
}

impl ActionRequest {
    /// A fresh builder with no field set.
    pub fn builder() -> (r: ActionRequestBuilder)
        ensures
            r.originating_id is None,
            r.receiving_id is None,
            r.request_id is None,
            r.action_id is None,
            r.fixed_datum_records@ == Seq::<FixedDatum>::empty(),
            r.variable_datum_records@ == Seq::<VariableDatum>::empty(),
    {
        ActionRequestBuilder::new()
    }

    /// A builder carrying every field of this body.
    pub fn into_builder(self) -> (r: ActionRequestBuilder)
        ensures
            r.originating_id == Some(self.originating_id),
            r.receiving_id == Some(self.receiving_id),
            r.request_id == Some(self.request_id),
            r.action_id == Some(self.action_id),
            r.fixed_datum_records == self.fixed_datum_records,
            r.variable_datum_records == self.variable_datum_records,
    {
        ActionRequestBuilder::new_from_body(self)
    }
}

/// Builder for an Action Response body; the datum lists default to empty.
#[derive(Clone, Debug, PartialEq, Eq)]
pub struct ActionResponseBuilder {
    pub originating_id: Option<EntityId>,
    pub receiving_id: Option<EntityId>,
    pub request_id: Option<u32>,
    pub request_status: Option<RequestStatus>,
    pub fixed_datum_records: Vec<FixedDatum>,
    pub variable_datum_records: Vec<VariableDatum>,
}

impl ActionResponseBuilder {
    pub fn new() -> (r: Self)
        ensures
            r.originating_id is None,
            r.receiving_id is None,
            r.request_id is None,
            r.request_status is None,
            r.fixed_datum_records@ == Seq::<FixedDatum>::empty(),
            r.variable_datum_records@ == Seq::<VariableDatum>::empty(),
    {
        ActionResponseBuilder {
            originating_id: None,
            receiving_id: None,
            request_id: None,
            request_status: None,
            fixed_datum_records: Vec::new(),
            variable_datum_records: Vec::new(),
        }
    }

    /// A builder carrying every field of an existing body.
    pub fn new_from_body(body: ActionResponse) -> (r: Self)
        ensures
            r.originating_id == Some(body.originating_id),
            r.receiving_id == Some(body.receiving_id),
            r.request_id == Some(body.request_id),
            r.request_status == Some(body.request_status),
            r.fixed_datum_records == body.fixed_datum_records,
            r.variable_datum_records == body.variable_datum_records,
    {
        ActionResponseBuilder {
            originating_id: Some(body.originating_id),
            receiving_id: Some(body.receiving_id),
            request_id: Some(body.request_id),
            request_status: Some(body.request_status),
            fixed_datum_records: body.fixed_datum_records,
            variable_datum_records: body.variable_datum_records,
        }
    }

    pub fn originating_id(self, originating_id: EntityId) -> (r: Self)
        ensures
            r == (Self { originating_id: Some(originating_id), ..self }),
    {
        Self { originating_id: Some(originating_id), ..self }
    }

    pub fn receiving_id(self, receiving_id: EntityId) -> (r: Self)
        ensures
            r == (Self { receiving_id: Some(receiving_id), ..self }),
    {
        Self { receiving_id: Some(receiving_id), ..self }
    }

    pub fn request_id(self, request_id: u32) -> (r: Self)
        ensures
            r == (Self { request_id: Some(request_id), ..self }),
    {
        Self { request_id: Some(request_id), ..self }
    }

    pub fn request_status(self, request_status: RequestStatus) -> (r: Self)
        ensures
            r == (Self { request_status: Some(request_status), ..self }),
    {
        Self { request_status: Some(request_status), ..self }
    }

    pub fn with_fixed_datums(self, fixed_datum_records: Vec<FixedDatum>) -> (r: Self)
        ensures
            r == (Self { fixed_datum_records, ..self }),
    {
        Self { fixed_datum_records, ..self }
    }

    pub fn with_variable_datums(self, variable_datum_records: Vec<VariableDatum>) -> (r: Self)
        ensures
            r == (Self { variable_datum_records, ..self }),
    {
        Self { variable_datum_records, ..self }
    }

    /// Builds the body; every scalar field must have been set.
    pub fn build(self) -> (r: Result<ActionResponse, DisError>)
        ensures
            r is Ok <==> self.originating_id is Some && self.receiving_id is Some
                && self.request_id is Some && self.request_status is Some,
            r matches Ok(v) ==> v == (ActionResponse {
                originating_id: self.originating_id->0,
                receiving_id: self.receiving_id->0,
                request_id: self.request_id->0,
                request_status: self.request_status->0,
                fixed_datum_records: self.fixed_datum_records,
                variable_datum_records: self.variable_datum_records,
            }),
            r matches Err(e) ==> e == DisError::MissingField,
    {
        let originating_id = match self.originating_id {
            Some(x) => x,
            None => {
                return Err(DisError::MissingField);
            },
        };
        let receiving_id = match self.receiving_id {
            Some(x) => x,
            None => {
                return Err(DisError::MissingField);
            },
        };
        let request_id = match self.request_id {
            Some(x) => x,
            None => {
                return Err(DisError::MissingField);
            },
        };
        let request_status = match self.request_status {
            Some(x) => x,
            None => {
                return Err(DisError::MissingField);
            },
        };
        Ok(ActionResponse {
            originating_id,
            receiving_id,
            request_id,
            request_status,
            fixed_datum_records: self.fixed_datum_records,
            variable_datum_records: self.variable_datum_records,
        })
    }
}

impl ActionResponse {
    /// A fresh builder with no field set.
    pub fn builder() -> (r: ActionResponseBuilder)
        ensures
            r.originating_id is None,
            r.receiving_id is None,
            r.request_id is None,
            r.request_status is None,
            r.fixed_datum_records@ == Seq::<FixedDatum>::empty(),
            r.variable_datum_records@ == Seq::<VariableDatum>::empty(),
    {
        ActionResponseBuilder::new()
    }

    /// A builder carrying every field of this body.
    pub fn into_builder(self) -> (r: ActionResponseBuilder)
        ensures
            r.originating_id == Some(self.originating_id),
            r.receiving_id == Some(self.receiving_id),
            r.request_id == Some(self.request_id),
            r.request_status == Some(self.request_status),
            r.fixed_datum_records == self.fixed_datum_records,
            r.variable_datum_records == self.variable_datum_records,
    {
        ActionResponseBuilder::new_from_body(self)
    }
}

} // verus!
