//! Frame encoder and metric-type registry.
//!
//! A frame is one tag byte followed by a fixed-length payload; the payload
//! length is a total function of the tag, so frames are self-delimiting and
//! a stream made of whole frames can always be decoded back into the exact
//! sequence of typed values it was built from.

use vstd::prelude::*;

verus! {

/// The tag byte that opens every clock frame.
pub const TIME_TAG: u8 = 1;

/// The tag byte that opens every volume frame.
pub const VOLUME_TAG: u8 = 2;

/// The closed set of metric kinds carried on the channel.
#[derive(Clone, Copy, PartialEq, Eq, Structural, Debug)]
pub enum DataType {
    Time,
    Volume,
}

/// One typed metric update, the unit the codec encodes and decodes.
#[derive(Clone, Copy, PartialEq, Eq, Structural, Debug)]
pub enum MetricValue {
    Time { hour: u8, minute: u8 },
    Volume { percent: u8 },
}

pub open spec fn spec_tag(t: DataType) -> u8 {
    match t {
        DataType::Time => TIME_TAG,
        DataType::Volume => VOLUME_TAG,
    }
}

pub open spec fn spec_payload_len(t: DataType) -> int {
    match t {
        DataType::Time => 2,
        DataType::Volume => 1,
    }
}

pub open spec fn spec_type_of(v: MetricValue) -> DataType {
    match v {
        MetricValue::Time { .. } => DataType::Time,
        MetricValue::Volume { .. } => DataType::Volume,
    }
}

/// The byte-exact frame for one value: tag, then the fixed payload.
pub open spec fn spec_encode(v: MetricValue) -> Seq<u8> {
    match v {
        MetricValue::Time { hour, minute } => seq![TIME_TAG, hour, minute],
        MetricValue::Volume { percent } => seq![VOLUME_TAG, percent],
    }
}

/// The byte stream for a whole sequence of values: the frames, concatenated
/// with no separators and no length prefix.
pub open spec fn spec_encode_all(vs: Seq<MetricValue>) -> Seq<u8>
    decreases vs.len(),
{
    if vs.len() == 0 {
        Seq::empty()
    } else {
        spec_encode(vs[0]) + spec_encode_all(vs.drop_first())
    }
}

impl DataType {
    /// The single-byte discriminant that opens a frame of this kind.
    pub fn tag(&self) -> (r: u8)
        ensures
            r == spec_tag(*self),
    {
        match self {
            DataType::Time => TIME_TAG,
            DataType::Volume => VOLUME_TAG,
        }
    }

    /// How many payload bytes follow the tag; total and stable per tag.
    pub fn payload_len(&self) -> (r: usize)
        ensures
            r == spec_payload_len(*self),
    {
        match self {
            DataType::Time => 2,
            DataType::Volume => 1,
        }
    }
}

/// Every frame is its kind's tag followed by exactly that kind's payload
/// length, so a reader that knows the tag table can always skip whole frames.
pub proof fn lemma_frame_shape(v: MetricValue)
    ensures
        spec_encode(v).len() == 1 + spec_payload_len(spec_type_of(v)),
        spec_encode(v)[0] == spec_tag(spec_type_of(v)),
{
}

/// Decode a byte stream made of whole frames back into its typed values;
/// `None` when the stream is not a concatenation of whole frames.
pub open spec fn spec_decode(s: Seq<u8>) -> Option<Seq<MetricValue>>
    decreases s.len(),
{
    if s.len() == 0 {
        Some(Seq::empty())
    } else if s[0] == TIME_TAG {
        if s.len() >= 3 {
            match spec_decode(s.skip(3)) {
                Some(rest) => Some(seq![MetricValue::Time { hour: s[1], minute: s[2] }] + rest),
                None => None,
            }
        } else {
            None
        }
    } else if s[0] == VOLUME_TAG {
        if s.len() >= 2 {
            match spec_decode(s.skip(2)) {
                Some(rest) => Some(seq![MetricValue::Volume { percent: s[1] }] + rest),
                None => None,
            }
        } else {
            None
        }
    } else {
        None
    }
}

/// Frames concatenate without separators: the stream for two value
/// sequences in a row is the two streams in a row.
pub proof fn lemma_encode_all_append(a: Seq<MetricValue>, b: Seq<MetricValue>)
    ensures
        spec_encode_all(a + b) == spec_encode_all(a) + spec_encode_all(b),
    decreases a.len(),
{
    if a.len() == 0 {
        assert(a + b =~= b);
        assert(spec_encode_all(a) + spec_encode_all(b) =~= spec_encode_all(b));
    } else {
        assert((a + b)[0] == a[0]);
        assert((a + b).drop_first() =~= a.drop_first() + b);
        lemma_encode_all_append(a.drop_first(), b);
        assert(spec_encode(a[0]) + (spec_encode_all(a.drop_first()) + spec_encode_all(b)) =~= (
        spec_encode(a[0]) + spec_encode_all(a.drop_first())) + spec_encode_all(b));
    }
}

/// Self-delimitation: decoding the stream built from any sequence of values
/// gives back exactly that sequence, so a consumer that knows the tag table
/// can always resynchronize on whole frames.
pub proof fn lemma_round_trip(vs: Seq<MetricValue>)
    ensures
        spec_decode(spec_encode_all(vs)) == Some(vs),
    decreases vs.len(),
{
    if vs.len() == 0 {
        assert(vs =~= Seq::<MetricValue>::empty());
    } else {
        let s = spec_encode_all(vs);
        let head = spec_encode(vs[0]);
        let rest = spec_encode_all(vs.drop_first());
        assert(s == head + rest);
        lemma_round_trip(vs.drop_first());
        match vs[0] {
            MetricValue::Time { hour, minute } => {
                assert(s[0] == TIME_TAG);
                assert(s[1] == hour && s[2] == minute);
                assert(s.skip(3) =~= rest);
                assert(seq![MetricValue::Time { hour, minute }] + vs.drop_first() =~= vs);
            }
            MetricValue::Volume { percent } => {
                assert(s[0] == VOLUME_TAG);
                assert(s[1] == percent);
                assert(s.skip(2) =~= rest);
                assert(seq![MetricValue::Volume { percent }] + vs.drop_first() =~= vs);
            }
        }
    }
}

/// Frames from different producers may follow each other on the channel in
/// any whole-frame order; the consumer still recovers the exact values.
pub proof fn lemma_interleaved_streams_decode(a: Seq<MetricValue>, b: Seq<MetricValue>)
    ensures
        spec_decode(spec_encode_all(a) + spec_encode_all(b)) == Some(a + b),
{
    lemma_encode_all_append(a, b);
    lemma_round_trip(a + b);
}

/// Encode one value as a fresh frame.
pub fn encode_value(v: &MetricValue) -> (r: Vec<u8>)
    ensures
        r@ == spec_encode(*v),
{
    match v {
        MetricValue::Time { hour, minute } => {
            let r: Vec<u8> = vec![TIME_TAG, *hour, *minute];
            proof {
                assert(r@ =~= spec_encode(*v));
            }
            r
        }
        MetricValue::Volume { percent } => {
            let r: Vec<u8> = vec![VOLUME_TAG, *percent];
            proof {
                assert(r@ =~= spec_encode(*v));
            }
            r
        }
    }
}

/// Encode a sequence of values as one contiguous byte stream of frames.
pub fn encode_values(vs: &Vec<MetricValue>) -> (r: Vec<u8>)
    ensures
        r@ == spec_encode_all(vs@),
{
    let mut out: Vec<u8> = Vec::new();
    let mut i: usize = 0;
    while i < vs.len()
        invariant
            0 <= i <= vs.len(),
            out@ == spec_encode_all(vs@.take(i as int)),
        decreases vs.len() - i,
    {
        let mut frame = encode_value(&vs[i]);
        out.append(&mut frame);
        proof {
            let single = seq![vs@[i as int]];
            assert(single.drop_first() =~= Seq::<MetricValue>::empty());
            assert(spec_encode_all(Seq::<MetricValue>::empty()) =~= Seq::<u8>::empty());
            assert(spec_encode_all(single) =~= spec_encode(vs@[i as int]));
            assert(vs@.take(i as int + 1) =~= vs@.take(i as int) + single);
            lemma_encode_all_append(vs@.take(i as int), single);
        }
        i += 1;
    }
    proof {
        assert(vs@.take(vs.len() as int) =~= vs@);
    }
    out
}

/// The decoded values of `rest` with `prefix` already decoded in front.
spec fn spec_prepend(prefix: Seq<MetricValue>, rest: Option<Seq<MetricValue>>) -> Option<
    Seq<MetricValue>,
> {
    match rest {
        Some(vs) => Some(prefix + vs),
        None => None,
    }
}

/// Decode a byte stream made of whole frames, resynchronizing on the tag
/// table alone; `None` exactly when the stream is not a concatenation of
/// whole frames.
pub fn decode_frames(data: &Vec<u8>) -> (r: Option<Vec<MetricValue>>)
    ensures
        match r {
            Some(vs) => spec_decode(data@) == Some(vs@),
            None => spec_decode(data@) is None,
        },
{
    let mut acc: Vec<MetricValue> = Vec::new();
    let mut i: usize = 0;
    proof {
        assert(data@.skip(0) =~= data@);
        if spec_decode(data@) is Some {
            assert(Seq::<MetricValue>::empty() + spec_decode(data@).unwrap() =~= spec_decode(
                data@,
            ).unwrap());
        }
    }
    while i < data.len()
        invariant
            0 <= i <= data.len(),
            spec_decode(data@) == spec_prepend(acc@, spec_decode(data@.skip(i as int))),
        decreases data.len() - i,
    {
        let ghost tail = data@.skip(i as int);
        proof {
            assert(tail[0] == data@[i as int]);
        }
        let tag = data[i];
        if tag == TIME_TAG {
            if data.len() - i >= 3 {
                let v = MetricValue::Time { hour: data[i + 1], minute: data[i + 2] };
                proof {
                    assert(tail[1] == data@[i as int + 1] && tail[2] == data@[i as int + 2]);
                    assert(tail.skip(3) =~= data@.skip(i as int + 3));
                    assert(acc@ + (seq![v] + spec_decode(tail.skip(3)).unwrap()) =~= (acc@
                        + seq![v]) + spec_decode(tail.skip(3)).unwrap());
                    assert(acc@.push(v) =~= acc@ + seq![v]);
                }
                acc.push(v);
                i = i + 3;
            } else {
                proof {
                    assert(spec_decode(tail) is None);
                }
                return None;
            }
        } else if tag == VOLUME_TAG {
            if data.len() - i >= 2 {
                let v = MetricValue::Volume { percent: data[i + 1] };
                proof {
                    assert(tail[1] == data@[i as int + 1]);
                    assert(tail.skip(2) =~= data@.skip(i as int + 2));
                    assert(acc@ + (seq![v] + spec_decode(tail.skip(2)).unwrap()) =~= (acc@
                        + seq![v]) + spec_decode(tail.skip(2)).unwrap());
                    assert(acc@.push(v) =~= acc@ + seq![v]);
                }
                acc.push(v);
                i = i + 2;
            } else {
                proof {
                    assert(spec_decode(tail) is None);
                }
                return None;
            }
        } else {
            proof {
                assert(spec_decode(tail) is None);
            }
            return None;
        }
    }
    proof {
        assert(data@.skip(i as int) =~= Seq::<u8>::empty());
        assert(spec_decode(data@.skip(i as int)) == Some(Seq::<MetricValue>::empty()));
        assert(acc@ + Seq::<MetricValue>::empty() =~= acc@);
    }
    Some(acc)
}

} // verus!
