//! The LLDP data unit: walking the TLV stream of one LLDP payload and
//! assembling the ordered sequence of decoded records.
//!
//! Each TLV starts with a 2-byte big-endian header: the top 7 bits are
//! the type code, the bottom 9 bits the value length.  Type code 0 is
//! the end-of-LLDPDU terminator.  Running out of bytes without a
//! terminator is tolerated and reported through the terminator flag.
use vstd::prelude::*;
use vstd::arithmetic::div_mod::lemma_fundamental_div_mod;
use vstd::slice::slice_subrange;
use vstd::string::StringExecFns;

use crate::render::{dec_usize, spec_dec_chars};
use crate::tlv::{
    chassis_id, management_address, port_id, record_matches, system_capabilities,
    system_description, system_name, tlv_decode_error, ttl, unknown, Packet,
    PortDescriptionTLV, RawTlv, TlvRecord,
};
use crate::wire::{read_u16_be, spec_u16_be};
use crate::DecodeError;

verus! {

/// The outcome of walking one TLV stream: the wire TLVs up to the first
/// terminator, whether a terminator was seen, and the error that stopped
/// the walk, if one did.  On an error the records already walked are
/// kept, so a caller can hold partial results beside the error.
pub struct ParseOutcome {
    pub records: Seq<RawTlv>,
    pub terminated: bool,
    pub error: Option<DecodeError>,
}

/// The TLV stream walk as a function on byte sequences.
///
/// Fewer than 2 remaining bytes end the walk without a terminator; a
/// 0 type code ends it with one; a declared length past the end of the
/// buffer stops it with `TruncatedTlv`; a value its per-type decoder
/// rejects stops it with that decoder's error.  Otherwise one record is
/// taken and the walk continues after it.
pub open spec fn parse_tlvs(bytes: Seq<u8>) -> ParseOutcome
    decreases bytes.len(),
{
    if bytes.len() < 2 {
        ParseOutcome { records: Seq::empty(), terminated: false, error: Option::None }
    } else {
        let header = spec_u16_be(bytes);
        let code = (header >> 9) as u8;
        let length = (header & 0x1ff) as u16;
        if code == 0 {
            ParseOutcome { records: Seq::empty(), terminated: true, error: Option::None }
        } else if bytes.len() < 2 + length as int {
            ParseOutcome {
                records: Seq::empty(),
                terminated: false,
                error: Option::Some(DecodeError::TruncatedTlv),
            }
        } else {
            let value = bytes.subrange(2, 2 + length as int);
            match tlv_decode_error(code, value) {
                Option::Some(e) => ParseOutcome {
                    records: Seq::empty(),
                    terminated: false,
                    error: Option::Some(e),
                },
                Option::None => {
                    let rest = parse_tlvs(bytes.subrange(2 + length as int, bytes.len() as int));
                    ParseOutcome {
                        records: seq![RawTlv { code, length, value }] + rest.records,
                        terminated: rest.terminated,
                        error: rest.error,
                    }
                },
            }
        }
    }
}

/// The wire bytes a record sequence took: a 2-byte header plus the
/// declared value length, summed over the records.
pub open spec fn spec_records_size(s: Seq<TlvRecord>) -> int
    decreases s.len(),
{
    if s.len() == 0 {
        0
    } else {
        spec_records_size(s.drop_last()) + s.last().spec_size()
    }
}

/// A decoded LLDP data unit: the TLV records in wire order, and whether
/// the stream ended at an end-of-LLDPDU terminator (running out of bytes
/// without one is tolerated but reported here as `false`).
#[derive(Debug)]
pub struct LLDPU {
    tlvs: Vec<TlvRecord>,
    terminated: bool,
}

impl View for LLDPU {
    type V = Seq<TlvRecord>;

    closed spec fn view(&self) -> Seq<TlvRecord> {
        self.tlvs@
    }
}

impl LLDPU {
    #[verifier::type_invariant]
    spec fn wf(self) -> bool {
        spec_records_size(self.tlvs@) <= usize::MAX
    }

    pub closed spec fn spec_terminated(self) -> bool {
        self.terminated
    }

    /// Walks the TLV stream of an LLDP payload.  The returned unit holds
    /// every record decoded before the walk stopped; the second component
    /// is the error that stopped it, if one did, so partial results stay
    /// available beside the error.
    pub fn new(bytes: &[u8]) -> (r: (LLDPU, Option<DecodeError>))
        ensures
            ({
                let m = parse_tlvs(bytes@);
                &&& r.0@.len() == m.records.len()
                &&& forall|i: int|
                    0 <= i < m.records.len() ==> record_matches(
                        #[trigger] r.0@[i],
                        m.records[i],
                    )
                &&& r.0.spec_terminated() == m.terminated
                &&& r.1 == m.error
            }),
    {
        let ghost m = parse_tlvs(bytes@);
        let mut pos: usize = 0;
        let mut tlvs: Vec<TlvRecord> = Vec::new();
        let mut terminated: bool = false;
        let mut error: Option<DecodeError> = None;
        let ghost mut raws: Seq<RawTlv> = Seq::empty();
        proof {
            assert(bytes@.subrange(0, bytes@.len() as int) =~= bytes@);
        }
        loop
            invariant_except_break
                pos <= bytes@.len(),
                tlvs@.len() == raws.len(),
                forall|i: int| 0 <= i < raws.len() ==> record_matches(#[trigger] tlvs@[i], raws[i]),
                spec_records_size(tlvs@) == pos as int,
                m == parse_tlvs(bytes@),
                m.records == raws + parse_tlvs(
                    bytes@.subrange(pos as int, bytes@.len() as int),
                ).records,
                m.terminated == parse_tlvs(
                    bytes@.subrange(pos as int, bytes@.len() as int),
                ).terminated,
                m.error == parse_tlvs(bytes@.subrange(pos as int, bytes@.len() as int)).error,
                terminated == false,
                error is None,
            ensures
                tlvs@.len() == raws.len(),
                forall|i: int| 0 <= i < raws.len() ==> record_matches(#[trigger] tlvs@[i], raws[i]),
                spec_records_size(tlvs@) <= usize::MAX,
                m.records == raws,
                m.terminated == terminated,
                m.error == error,
            decreases bytes@.len() - pos,
        {
            let ghost sk = bytes@.subrange(pos as int, bytes@.len() as int);
            let remaining: usize = bytes.len() - pos;
            if remaining < 2 {
                proof {
                    assert(m.records =~= raws);
                }
                break;
            }
            let header = read_u16_be(slice_subrange(bytes, pos, pos + 2));
            proof {
                assert(bytes@.subrange(pos as int, pos as int + 2)[0] == sk[0]);
                assert(bytes@.subrange(pos as int, pos as int + 2)[1] == sk[1]);
                assert(header == spec_u16_be(sk));
            }
            let t: u8 = #[verifier::truncate] ((header >> 9) as u8);
            let l: u16 = header & 0x1ff;
            if t == 0 {
                terminated = true;
                proof {
                    assert(m.records =~= raws);
                }
                break;
            }
            if (l as usize) > remaining - 2 {
                error = Some(DecodeError::TruncatedTlv);
                proof {
                    assert(sk.len() < 2 + l as int);
                    assert(m.records =~= raws);
                }
                break;
            }
            let vend: usize = pos + 2 + (l as usize);
            let value = slice_subrange(bytes, pos + 2, vend);
            proof {
                assert(value@ =~= sk.subrange(2, 2 + l as int));
            }
            let ghost raw = RawTlv { code: t, length: l, value: value@ };
            let rec: TlvRecord = match t {
                1 => TlvRecord::ChassisId(chassis_id::new(l, value)),
                2 => match port_id::new(l, value) {
                    Ok(p) => TlvRecord::PortId(p),
                    Err(e) => {
                        error = Some(e);
                        proof {
                            assert(m.records =~= raws);
                        }
                        break;
                    },
                },
                3 => match ttl::new(l, value) {
                    Ok(p) => TlvRecord::TimeToLive(p),
                    Err(e) => {
                        error = Some(e);
                        proof {
                            assert(m.records =~= raws);
                        }
                        break;
                    },
                },
                4 => match PortDescriptionTLV::new(l, value) {
                    Ok(p) => TlvRecord::PortDescription(p),
                    Err(e) => {
                        error = Some(e);
                        proof {
                            assert(m.records =~= raws);
                        }
                        break;
                    },
                },
                5 => match system_name::new(l, value) {
                    Ok(p) => TlvRecord::SystemName(p),
                    Err(e) => {
                        error = Some(e);
                        proof {
                            assert(m.records =~= raws);
                        }
                        break;
                    },
                },
                6 => match system_description::new(l, value) {
                    Ok(p) => TlvRecord::SystemDescription(p),
                    Err(e) => {
                        error = Some(e);
                        proof {
                            assert(m.records =~= raws);
                        }
                        break;
                    },
                },
                7 => match system_capabilities::new(l, value) {
                    Ok(p) => TlvRecord::SystemCapabilities(p),
                    Err(e) => {
                        error = Some(e);
                        proof {
                            assert(m.records =~= raws);
                        }
                        break;
                    },
                },
                8 => match management_address::new(l, value) {
                    Ok(p) => TlvRecord::ManagementAddress(p),
                    Err(e) => {
                        error = Some(e);
                        proof {
                            assert(m.records =~= raws);
                        }
                        break;
                    },
                },
                _ => TlvRecord::Unknown(unknown::new(t, l, value)),
            };
            proof {
                assert(tlv_decode_error(t, value@) is None);
                assert(record_matches(rec, raw));
            }
            let ghost old_tlvs = tlvs@;
            tlvs.push(rec);
            proof {
                raws = raws + seq![raw];
                assert(tlvs@.drop_last() =~= old_tlvs);
                assert(tlvs@.last() == rec);
                assert(spec_records_size(tlvs@) == pos as int + 2 + l as int);
                assert(bytes@.subrange(vend as int, bytes@.len() as int) =~= sk.subrange(
                    2 + l as int,
                    sk.len() as int,
                ));
                let rest = parse_tlvs(sk.subrange(2 + l as int, sk.len() as int));
                assert(parse_tlvs(sk).records =~= seq![raw] + rest.records);
                assert(m.records =~= raws + rest.records);
                assert(forall|i: int|
                    0 <= i < raws.len() ==> record_matches(#[trigger] tlvs@[i], raws[i]));
            }
            pos = vend;
        }
        proof {
            assert(spec_records_size(tlvs@) <= usize::MAX);
        }
        let unit = LLDPU { tlvs, terminated };
        (unit, error)
    }

    /// The decoded records, in wire order.
    pub fn get_tlvs(&self) -> (r: &Vec<TlvRecord>)
        ensures
            r@ == self@,
    {
        &self.tlvs
    }

    /// Whether the stream ended at an end-of-LLDPDU terminator, rather
    /// than by running out of bytes.
    pub fn is_terminated(&self) -> (r: bool)
        ensures
            r == self.spec_terminated(),
    {
        self.terminated
    }

    /// The rendered unit: a size line, then one line per record.
    pub open spec fn spec_display(self) -> Seq<char> {
        "LLDP Frame (size "@ + spec_dec_chars(spec_records_size(self@)) + ")"@
            + spec_tlv_lines(self@)
    }

    pub fn to_string(&self) -> (r: String)
        ensures
            r@ == self.spec_display(),
    {
        let mut s = String::from_str("LLDP Frame (size ");
        s.append(dec_usize(self.get_size()).as_str());
        s.append(")");
        let ghost all = self.tlvs@;
        let mut i: usize = 0;
        proof {
            assert(all.subrange(0, 0) =~= Seq::<TlvRecord>::empty());
            assert(s@ =~= "LLDP Frame (size "@ + spec_dec_chars(spec_records_size(self@)) + ")"@
                + spec_tlv_lines(all.subrange(0, 0)));
        }
        while i < self.tlvs.len()
            invariant
                i <= all.len(),
                all == self.tlvs@,
                s@ == "LLDP Frame (size "@ + spec_dec_chars(spec_records_size(self@)) + ")"@
                    + spec_tlv_lines(all.subrange(0, i as int)),
            decreases all.len() - i,
        {
            s.append("\r\n");
            s.append(self.tlvs[i].to_string().as_str());
            proof {
                assert(all.subrange(0, i as int + 1).drop_last() =~= all.subrange(0, i as int));
                assert(all.subrange(0, i as int + 1).last() == all[i as int]);
                assert(s@ =~= "LLDP Frame (size "@ + spec_dec_chars(spec_records_size(self@))
                    + ")"@ + spec_tlv_lines(all.subrange(0, i as int + 1)));
            }
            i = i + 1;
        }
        proof {
            assert(all.subrange(0, all.len() as int) =~= all);
        }
        s
    }
}

/// One rendered line per record, each preceded by a CRLF separator.
pub open spec fn spec_tlv_lines(s: Seq<TlvRecord>) -> Seq<char>
    decreases s.len(),
{
    if s.len() == 0 {
        Seq::empty()
    } else {
        spec_tlv_lines(s.drop_last()) + "\r\n"@ + s.last().spec_display()
    }
}

impl Packet for LLDPU {
    fn get_size(&self) -> (r: usize)
        ensures
            r as int == spec_records_size(self@),
    {
        proof {
            use_type_invariant(self);
        }
        let mut size: usize = 0;
        let mut i: usize = 0;
        proof {
            assert(self.tlvs@.subrange(0, 0) =~= Seq::<TlvRecord>::empty());
        }
        while i < self.tlvs.len()
            invariant
                i <= self.tlvs@.len(),
                spec_records_size(self.tlvs@) <= usize::MAX,
                size as int == spec_records_size(self.tlvs@.subrange(0, i as int)),
            decreases self.tlvs@.len() - i,
        {
            proof {
                lemma_records_size_prefix_bound(self.tlvs@, i as int + 1);
                assert(self.tlvs@.subrange(0, i as int + 1).drop_last() =~= self.tlvs@.subrange(
                    0,
                    i as int,
                ));
                assert(self.tlvs@.subrange(0, i as int + 1).last() == self.tlvs@[i as int]);
            }
            size = size + 2 + self.tlvs[i].get_length() as usize;
            i = i + 1;
        }
        proof {
            assert(self.tlvs@.subrange(0, self.tlvs@.len() as int) =~= self.tlvs@);
        }
        size
    }
}

/// A wire TLV that a stream walk takes whole: a nonzero 7-bit code, a
/// 9-bit length that matches the value, and a value its per-type decoder
/// accepts.
pub open spec fn wf_raw(t: RawTlv) -> bool {
    &&& 1 <= t.code < 128
    &&& t.length < 512
    &&& t.value.len() == t.length
    &&& tlv_decode_error(t.code, t.value) is None
}

/// The 2-byte big-endian header that carries a type code and a length.
pub open spec fn spec_tlv_header_bytes(code: u8, length: u16) -> Seq<u8> {
    let h = code as int * 512 + length as int;
    seq![(h / 256) as u8, (h % 256) as u8]
}

/// One TLV as laid out on the wire: its header, then its value.
pub open spec fn spec_encode_tlv(t: RawTlv) -> Seq<u8> {
    spec_tlv_header_bytes(t.code, t.length) + t.value
}

/// A TLV stream as laid out on the wire: each TLV in order.
pub open spec fn spec_encode_tlvs(ts: Seq<RawTlv>) -> Seq<u8>
    decreases ts.len(),
{
    if ts.len() == 0 {
        Seq::empty()
    } else {
        spec_encode_tlv(ts[0]) + spec_encode_tlvs(ts.drop_first())
    }
}

/// The end-of-LLDPDU marker: a header with type code 0 and length 0.
pub open spec fn spec_terminator() -> Seq<u8> {
    seq![0u8, 0u8]
}

/// Splitting the header built from a code and a length gives them back.
proof fn lemma_header_split(h: u16, c: u8, l: u16)
    requires
        c < 128,
        l < 512,
        h as int == c as int * 512 + l as int,
    ensures
        (h >> 9) as u8 == c,
        h & 0x1ff == l,
{
    assert((h >> 9) as u8 == c && h & 0x1ff == l) by (bit_vector)
        requires
            c < 128,
            l < 512,
            h == (c as u16) * 512 + l,
    ;
}

/// A buffer that starts with an encoded header reads back as that header:
/// the big-endian 16-bit value splits into the code and the length.
proof fn lemma_header_bytes_split(code: u8, length: u16, tail: Seq<u8>)
    requires
        code < 128,
        length < 512,
    ensures
        ({
            let b = spec_tlv_header_bytes(code, length) + tail;
            &&& b.len() == 2 + tail.len()
            &&& (spec_u16_be(b) >> 9) as u8 == code
            &&& spec_u16_be(b) & 0x1ff == length
        }),
{
    let b = spec_tlv_header_bytes(code, length) + tail;
    let h = code as int * 512 + length as int;
    lemma_fundamental_div_mod(h, 256);
    assert(h < 65536);
    assert(h / 256 < 256 && h / 256 >= 0);
    assert(b[0] == (h / 256) as u8);
    assert(b[1] == (h % 256) as u8);
    assert(spec_u16_be(b) as int == h);
    lemma_header_split(spec_u16_be(b), code, length);
}

/// Walking a stream that starts with one well-formed wire TLV takes that
/// TLV and then walks the rest.
proof fn lemma_parse_cons(t: RawTlv, rest: Seq<u8>)
    requires
        wf_raw(t),
    ensures
        ({
            let p = parse_tlvs(spec_encode_tlv(t) + rest);
            let q = parse_tlvs(rest);
            &&& p.records == seq![t] + q.records
            &&& p.terminated == q.terminated
            &&& p.error == q.error
        }),
{
    let bytes = spec_encode_tlv(t) + rest;
    assert(bytes =~= spec_tlv_header_bytes(t.code, t.length) + (t.value + rest));
    lemma_header_bytes_split(t.code, t.length, t.value + rest);
    let header = spec_u16_be(bytes);
    assert((header >> 9) as u8 == t.code);
    assert(header & 0x1ff == t.length);
    assert(bytes.len() == 2 + t.value.len() + rest.len());
    assert(bytes.subrange(2, 2 + t.length as int) =~= t.value);
    assert(bytes.subrange(2 + t.length as int, bytes.len() as int) =~= rest);
    let raw = RawTlv {
        code: (header >> 9) as u8,
        length: (header & 0x1ff) as u16,
        value: bytes.subrange(2, 2 + t.length as int),
    };
    assert(raw == t);
    assert(parse_tlvs(bytes).records =~= seq![t] + parse_tlvs(rest).records);
}

/// Walking a buffer that starts with a whole well-formed stream takes
/// its TLVs in order and then walks whatever follows them.
pub proof fn lemma_parse_stream(ts: Seq<RawTlv>, tail: Seq<u8>)
    requires
        forall|i: int| 0 <= i < ts.len() ==> wf_raw(#[trigger] ts[i]),
    ensures
        ({
            let p = parse_tlvs(spec_encode_tlvs(ts) + tail);
            let q = parse_tlvs(tail);
            &&& p.records == ts + q.records
            &&& p.terminated == q.terminated
            &&& p.error == q.error
        }),
    decreases ts.len(),
{
    if ts.len() == 0 {
        assert(spec_encode_tlvs(ts) + tail =~= tail);
        assert(ts + parse_tlvs(tail).records =~= parse_tlvs(tail).records);
    } else {
        let rest_ts = ts.drop_first();
        lemma_parse_stream(rest_ts, tail);
        assert(spec_encode_tlvs(ts) + tail =~= spec_encode_tlv(ts[0]) + (spec_encode_tlvs(
            rest_ts,
        ) + tail));
        lemma_parse_cons(ts[0], spec_encode_tlvs(rest_ts) + tail);
        assert(parse_tlvs(spec_encode_tlvs(ts) + tail).records =~= ts + parse_tlvs(tail).records);
    }
}

/// Walking a buffer that starts with the end-of-LLDPDU marker stops at
/// once, successfully, whatever follows the marker.
proof fn lemma_parse_terminator(extra: Seq<u8>)
    ensures
        ({
            let p = parse_tlvs(spec_terminator() + extra);
            &&& p.records == Seq::<RawTlv>::empty()
            &&& p.terminated
            &&& p.error is None
        }),
{
    let b = spec_terminator() + extra;
    assert(b[0] == 0 && b[1] == 0);
    assert(spec_u16_be(b) == 0);
    assert((0u16 >> 9) as u8 == 0) by (bit_vector);
}

/// A stream of well-formed TLVs followed by a terminator decodes to
/// exactly those TLVs, in order, each with its original value bytes.
pub proof fn lemma_tlv_stream_round_trip(ts: Seq<RawTlv>)
    requires
        forall|i: int| 0 <= i < ts.len() ==> wf_raw(#[trigger] ts[i]),
    ensures
        ({
            let p = parse_tlvs(spec_encode_tlvs(ts) + spec_terminator());
            &&& p.records == ts
            &&& p.terminated
            &&& p.error is None
        }),
{
    lemma_parse_stream(ts, spec_terminator());
    lemma_parse_terminator(Seq::empty());
    assert(spec_terminator() + Seq::<u8>::empty() =~= spec_terminator());
    assert(ts + Seq::<RawTlv>::empty() =~= ts);
}

/// Appending extra bytes after a valid terminator changes nothing: the
/// walk stops at the terminator and yields the same records.
pub proof fn lemma_terminator_idempotent(ts: Seq<RawTlv>, extra: Seq<u8>)
    requires
        forall|i: int| 0 <= i < ts.len() ==> wf_raw(#[trigger] ts[i]),
    ensures
        ({
            let p = parse_tlvs(spec_encode_tlvs(ts) + spec_terminator() + extra);
            let q = parse_tlvs(spec_encode_tlvs(ts) + spec_terminator());
            &&& p.records == q.records
            &&& p.records == ts
            &&& p.terminated && q.terminated
            &&& p.error is None && q.error is None
        }),
{
    lemma_tlv_stream_round_trip(ts);
    assert(spec_encode_tlvs(ts) + spec_terminator() + extra =~= spec_encode_tlvs(ts) + (
    spec_terminator() + extra));
    lemma_parse_stream(ts, spec_terminator() + extra);
    lemma_parse_terminator(extra);
    assert(ts + Seq::<RawTlv>::empty() =~= ts);
}

/// A TLV whose declared length exceeds the bytes that remain stops the
/// walk with `TruncatedTlv`; the records before it are kept.
pub proof fn lemma_truncated_tlv_detected(ts: Seq<RawTlv>, code: u8, length: u16, value: Seq<u8>)
    requires
        forall|i: int| 0 <= i < ts.len() ==> wf_raw(#[trigger] ts[i]),
        1 <= code < 128,
        length < 512,
        value.len() < length,
    ensures
        ({
            let p = parse_tlvs(
                spec_encode_tlvs(ts) + (spec_tlv_header_bytes(code, length) + value),
            );
            &&& p.records == ts
            &&& p.error == Option::Some(DecodeError::TruncatedTlv)
            &&& !p.terminated
        }),
{
    let tail = spec_tlv_header_bytes(code, length) + value;
    lemma_parse_stream(ts, tail);
    lemma_header_bytes_split(code, length, value);
    assert(tail.len() == 2 + value.len());
    assert(tail.len() < 2 + length as int);
    assert((spec_u16_be(tail) >> 9) as u8 == code);
    assert(parse_tlvs(tail).error == Option::Some(DecodeError::TruncatedTlv));
    assert(ts + Seq::<RawTlv>::empty() =~= ts);
}

/// The size of a prefix of a record sequence never exceeds the size of
/// the whole: every record contributes a nonnegative share.
proof fn lemma_records_size_prefix_bound(s: Seq<TlvRecord>, n: int)
    requires
        0 <= n <= s.len(),
    ensures
        spec_records_size(s.subrange(0, n)) <= spec_records_size(s),
    decreases s.len() - n,
{
    if n == s.len() {
        assert(s.subrange(0, n) =~= s);
    } else {
        lemma_records_size_prefix_bound(s, n + 1);
        assert(s.subrange(0, n + 1).drop_last() =~= s.subrange(0, n));
        assert(s.subrange(0, n + 1).last() == s[n]);
    }
}

} // verus!
