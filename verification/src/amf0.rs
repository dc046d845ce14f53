//! The self-describing key/value encoding that command messages carry.
//!
//! Values are modelled as plain data: a number is kept as the bit pattern of
//! its 8-byte wire field, a string as its bytes, and an object as a list of
//! properties whose values are scalars. Object properties carrying anything
//! but a scalar are outside the subset this module reads and writes.

use vstd::prelude::*;

use crate::bytes_util::be16;
use crate::bytes_util::be64;
use crate::bytes_util::get_be_u16;
use crate::bytes_util::get_be_u64;
use crate::bytes_util::push_be_u16;
use crate::bytes_util::push_be_u64;
use crate::bytes_util::push_slice;
use crate::bytes_util::push_slice_range;
use crate::bytes_util::u16_to_be;
use crate::bytes_util::u64_to_be;

verus! {

broadcast use Seq::add_empty_left, Seq::add_empty_right;

/// The bit pattern of the number zero.
pub const AMF0_NUMBER_ZERO: u64 = 0;

/// The bit pattern of the number one.
pub const AMF0_NUMBER_ONE: u64 = 0x3FF0000000000000;

/// The wire marker of a number value.
pub const AMF0_MARKER_NUMBER: u8 = 0;

/// The wire marker of a boolean value.
pub const AMF0_MARKER_BOOLEAN: u8 = 1;

/// The wire marker of a string value.
pub const AMF0_MARKER_STRING: u8 = 2;

/// The wire marker of an object value.
pub const AMF0_MARKER_OBJECT: u8 = 3;

/// The wire marker of the null value.
pub const AMF0_MARKER_NULL: u8 = 5;

/// The marker that ends an object's property list.
pub const AMF0_MARKER_OBJECT_END: u8 = 9;

/// A scalar value: what an object property may carry.
#[derive(Debug, Clone, PartialEq, Eq)]
pub enum Amf0Scalar {
    /// A number, kept as the bit pattern of its 8-byte wire field.
    Number(u64),
    /// A boolean.
    Boolean(bool),
    /// A string, kept as its bytes.
    Str(Vec<u8>),
    /// The null value.
    Null,
}

/// One property of an object: a key and a scalar value.
#[derive(Debug, Clone, PartialEq, Eq)]
pub struct Amf0Property {
    /// The key, kept as its bytes.
    pub key: Vec<u8>,
    /// The value.
    pub value: Amf0Scalar,
}

/// A value, as a command message carries it.
#[derive(Debug, Clone, PartialEq, Eq)]
pub enum Amf0Value {
    /// A number, kept as the bit pattern of its 8-byte wire field.
    Number(u64),
    /// A boolean.
    Boolean(bool),
    /// A string, kept as its bytes.
    Str(Vec<u8>),
    /// An object: a list of keyed scalar properties.
    Object(Vec<Amf0Property>),
    /// The null value.
    Null,
}

/// The shape of a scalar over byte sequences.
pub enum Amf0ScalarView {
    /// A number, as its bit pattern.
    Number(u64),
    /// A boolean.
    Boolean(bool),
    /// A string, as its bytes.
    Str(Seq<u8>),
    /// The null value.
    Null,
}

/// The shape of a value over byte sequences.
pub enum Amf0ValueView {
    /// A number, as its bit pattern.
    Number(u64),
    /// A boolean.
    Boolean(bool),
    /// A string, as its bytes.
    Str(Seq<u8>),
    /// An object, as a sequence of key/scalar pairs.
    Object(Seq<(Seq<u8>, Amf0ScalarView)>),
    /// The null value.
    Null,
}

impl View for Amf0Scalar {
    type V = Amf0ScalarView;

    open spec fn view(&self) -> Amf0ScalarView {
        match self {
            Amf0Scalar::Number(bits) => Amf0ScalarView::Number(*bits),
            Amf0Scalar::Boolean(b) => Amf0ScalarView::Boolean(*b),
            Amf0Scalar::Str(s) => Amf0ScalarView::Str(s@),
            Amf0Scalar::Null => Amf0ScalarView::Null,
        }
    }
}

impl View for Amf0Property {
    type V = (Seq<u8>, Amf0ScalarView);

    open spec fn view(&self) -> (Seq<u8>, Amf0ScalarView) {
        (self.key@, self.value@)
    }
}

/// The view of a property list: each property's view, in order.
pub open spec fn props_view(props: Seq<Amf0Property>) -> Seq<(Seq<u8>, Amf0ScalarView)> {
    Seq::new(props.len(), |i: int| props[i]@)
}

impl View for Amf0Value {
    type V = Amf0ValueView;

    open spec fn view(&self) -> Amf0ValueView {
        match self {
            Amf0Value::Number(bits) => Amf0ValueView::Number(*bits),
            Amf0Value::Boolean(b) => Amf0ValueView::Boolean(*b),
            Amf0Value::Str(s) => Amf0ValueView::Str(s@),
            Amf0Value::Object(props) => Amf0ValueView::Object(props_view(props@)),
            Amf0Value::Null => Amf0ValueView::Null,
        }
    }
}

/// A scalar fits the wire format when its string is short enough for the
/// 2-byte length field.
pub open spec fn wf_scalar(v: Amf0ScalarView) -> bool {
    match v {
        Amf0ScalarView::Str(s) => s.len() < 0x10000,
        _ => true,
    }
}

/// A property fits the wire format when its key names at least one byte and
/// both key and value fit their fields.
pub open spec fn wf_property(p: (Seq<u8>, Amf0ScalarView)) -> bool {
    0 < p.0.len() < 0x10000 && wf_scalar(p.1)
}

/// A property list fits the wire format when each property fits.
pub open spec fn wf_props(props: Seq<(Seq<u8>, Amf0ScalarView)>) -> bool {
    forall|i: int| 0 <= i < props.len() ==> #[trigger] wf_property(props[i])
}

/// A value fits the wire format when each of its parts fits.
pub open spec fn wf_value(v: Amf0ValueView) -> bool {
    match v {
        Amf0ValueView::Str(s) => s.len() < 0x10000,
        Amf0ValueView::Object(props) => wf_props(props),
        _ => true,
    }
}

/// The wire bytes of a scalar.
pub open spec fn spec_encode_scalar(v: Amf0ScalarView) -> Seq<u8> {
    match v {
        Amf0ScalarView::Number(bits) => seq![AMF0_MARKER_NUMBER] + u64_to_be(bits),
        Amf0ScalarView::Boolean(b) => seq![
            AMF0_MARKER_BOOLEAN,
            if b {
                1u8
            } else {
                0u8
            },
        ],
        Amf0ScalarView::Str(s) => seq![AMF0_MARKER_STRING] + u16_to_be(s.len() as u16) + s,
        Amf0ScalarView::Null => seq![AMF0_MARKER_NULL],
    }
}

/// The wire bytes of an object's property list, without the terminator.
pub open spec fn spec_encode_properties(props: Seq<(Seq<u8>, Amf0ScalarView)>) -> Seq<u8>
    decreases props.len(),
{
    if props.len() == 0 {
        Seq::<u8>::empty()
    } else {
        u16_to_be(props[0].0.len() as u16) + props[0].0 + spec_encode_scalar(props[0].1)
            + spec_encode_properties(props.skip(1))
    }
}

/// The three bytes that end an object's property list.
pub open spec fn spec_object_end() -> Seq<u8> {
    seq![0u8, 0u8, AMF0_MARKER_OBJECT_END]
}

/// The wire bytes of a value.
pub open spec fn spec_encode_value(v: Amf0ValueView) -> Seq<u8> {
    match v {
        Amf0ValueView::Number(bits) => seq![AMF0_MARKER_NUMBER] + u64_to_be(bits),
        Amf0ValueView::Boolean(b) => seq![
            AMF0_MARKER_BOOLEAN,
            if b {
                1u8
            } else {
                0u8
            },
        ],
        Amf0ValueView::Str(s) => seq![AMF0_MARKER_STRING] + u16_to_be(s.len() as u16) + s,
        Amf0ValueView::Object(props) => seq![AMF0_MARKER_OBJECT] + spec_encode_properties(props)
            + spec_object_end(),
        Amf0ValueView::Null => seq![AMF0_MARKER_NULL],
    }
}

/// Writes values to a byte buffer in the wire format.
pub struct Amf0Encoder;

impl Amf0Encoder {
    /// Appends the encoding of a number given as its bit pattern.
    pub fn encode_number(out: &mut Vec<u8>, bits: u64)
        ensures
            final(out)@ == old(out)@ + spec_encode_value(Amf0ValueView::Number(bits)),
    {
        out.push(AMF0_MARKER_NUMBER);
        push_be_u64(out, bits);
        proof {
            assert(out@ =~= old(out)@ + spec_encode_value(Amf0ValueView::Number(bits)));
        }
    }

    /// Appends the encoding of a boolean.
    pub fn encode_bool(out: &mut Vec<u8>, b: bool)
        ensures
            final(out)@ == old(out)@ + spec_encode_value(Amf0ValueView::Boolean(b)),
    {
        out.push(AMF0_MARKER_BOOLEAN);
        out.push(if b {
            1
        } else {
            0
        });
        proof {
            assert(out@ =~= old(out)@ + spec_encode_value(Amf0ValueView::Boolean(b)));
        }
    }

    /// Appends the encoding of a string given as its bytes.
    pub fn encode_string(out: &mut Vec<u8>, s: &[u8])
        requires
            s@.len() < 0x10000,
        ensures
            final(out)@ == old(out)@ + spec_encode_value(Amf0ValueView::Str(s@)),
    {
        out.push(AMF0_MARKER_STRING);
        push_be_u16(out, s.len() as u16);
        push_slice(out, s);
        proof {
            assert(out@ =~= old(out)@ + spec_encode_value(Amf0ValueView::Str(s@)));
        }
    }

    /// Appends the encoding of the null value.
    pub fn encode_null(out: &mut Vec<u8>)
        ensures
            final(out)@ == old(out)@ + spec_encode_value(Amf0ValueView::Null),
    {
        out.push(AMF0_MARKER_NULL);
        proof {
            assert(out@ =~= old(out)@ + spec_encode_value(Amf0ValueView::Null));
        }
    }

    /// Appends the encoding of one scalar.
    fn encode_scalar(out: &mut Vec<u8>, v: &Amf0Scalar)
        requires
            wf_scalar(v@),
        ensures
            final(out)@ == old(out)@ + spec_encode_scalar(v@),
    {
        match v {
            Amf0Scalar::Number(bits) => {
                out.push(AMF0_MARKER_NUMBER);
                push_be_u64(out, *bits);
            },
            Amf0Scalar::Boolean(b) => {
                out.push(AMF0_MARKER_BOOLEAN);
                out.push(
                    if *b {
                        1
                    } else {
                        0
                    },
                );
            },
            Amf0Scalar::Str(s) => {
                out.push(AMF0_MARKER_STRING);
                push_be_u16(out, s.len() as u16);
                push_slice_range(out, s, 0, s.len());
                proof {
                    assert(s@.subrange(0, s@.len() as int) =~= s@);
                }
            },
            Amf0Scalar::Null => {
                out.push(AMF0_MARKER_NULL);
            },
        }
        proof {
            assert(out@ =~= old(out)@ + spec_encode_scalar(v@));
        }
    }

    /// Appends the encoding of an object given as its property list.
    pub fn encode_object(out: &mut Vec<u8>, props: &Vec<Amf0Property>)
        requires
            wf_props(props_view(props@)),
        ensures
            final(out)@ == old(out)@ + spec_encode_value(Amf0ValueView::Object(props_view(props@))),
    {
        let ghost pview = props_view(props@);
        out.push(AMF0_MARKER_OBJECT);
        let mut i: usize = 0;
        while i < props.len()
            invariant
                i <= props.len(),
                pview == props_view(props@),
                wf_props(pview),
                out@ =~= old(out)@ + seq![AMF0_MARKER_OBJECT] + spec_encode_properties(
                    pview.take(i as int),
                ),
            decreases props.len() - i,
        {
            proof {
                assert(wf_property(pview[i as int]));
                assert(pview[i as int] == props@[i as int]@);
            }
            let ghost before = out@;
            push_be_u16(out, props[i].key.len() as u16);
            push_slice_range(out, &props[i].key, 0, props[i].key.len());
            Self::encode_scalar(out, &props[i].value);
            proof {
                assert(props@[i as int].key@.subrange(0, props@[i as int].key@.len() as int)
                    =~= props@[i as int].key@);
                lemma_encode_properties_snoc(pview, i as int);
                assert(out@ =~= before + u16_to_be(pview[i as int].0.len() as u16)
                    + pview[i as int].0 + spec_encode_scalar(pview[i as int].1));
                assert(out@ =~= old(out)@ + seq![AMF0_MARKER_OBJECT] + spec_encode_properties(
                    pview.take(i + 1),
                ));
            }
            i = i + 1;
        }
        out.push(0);
        out.push(0);
        out.push(AMF0_MARKER_OBJECT_END);
        proof {
            assert(pview.take(pview.len() as int) =~= pview);
            assert(out@ =~= old(out)@ + spec_encode_value(Amf0ValueView::Object(pview)));
        }
    }

    /// Appends the encoding of one value.
    pub fn encode_value(out: &mut Vec<u8>, v: &Amf0Value)
        requires
            wf_value(v@),
        ensures
            final(out)@ == old(out)@ + spec_encode_value(v@),
    {
        match v {
            Amf0Value::Number(bits) => Self::encode_number(out, *bits),
            Amf0Value::Boolean(b) => Self::encode_bool(out, *b),
            Amf0Value::Str(s) => {
                out.push(AMF0_MARKER_STRING);
                push_be_u16(out, s.len() as u16);
                push_slice_range(out, s, 0, s.len());
                proof {
                    assert(s@.subrange(0, s@.len() as int) =~= s@);
                    assert(out@ =~= old(out)@ + spec_encode_value(v@));
                }
            },
            Amf0Value::Object(props) => {
                proof {
                    assert(v@ == Amf0ValueView::Object(props_view(props@)));
                }
                Self::encode_object(out, props);
            },
            Amf0Value::Null => Self::encode_null(out),
        }
    }
}

/// A scalar seen as a value.
pub open spec fn scalar_as_value(v: Amf0ScalarView) -> Amf0ValueView {
    match v {
        Amf0ScalarView::Number(bits) => Amf0ValueView::Number(bits),
        Amf0ScalarView::Boolean(b) => Amf0ValueView::Boolean(b),
        Amf0ScalarView::Str(s) => Amf0ValueView::Str(s),
        Amf0ScalarView::Null => Amf0ValueView::Null,
    }
}

/// Reads one scalar from the front of `s`: the scalar and the bytes it
/// took. `None` when the front of `s` is not a whole scalar.
pub open spec fn spec_decode_scalar(s: Seq<u8>) -> Option<(Amf0ScalarView, int)> {
    if s.len() < 1 {
        None
    } else if s[0] == AMF0_MARKER_NUMBER {
        if s.len() < 9 {
            None
        } else {
            Some((Amf0ScalarView::Number(be64(s.subrange(1, 9)) as u64), 9))
        }
    } else if s[0] == AMF0_MARKER_BOOLEAN {
        if s.len() < 2 {
            None
        } else {
            Some((Amf0ScalarView::Boolean(s[1] != 0), 2))
        }
    } else if s[0] == AMF0_MARKER_STRING {
        if s.len() < 3 {
            None
        } else {
            let n = be16(s.subrange(1, 3));
            if s.len() < 3 + n {
                None
            } else {
                Some((Amf0ScalarView::Str(s.subrange(3, 3 + n)), 3 + n))
            }
        }
    } else if s[0] == AMF0_MARKER_NULL {
        Some((Amf0ScalarView::Null, 1))
    } else {
        None
    }
}

/// Reads an object's property list from the front of `s`, up to and
/// including the terminator: the properties and the bytes they took.
pub open spec fn spec_decode_properties(s: Seq<u8>) -> Option<
    (Seq<(Seq<u8>, Amf0ScalarView)>, int),
>
    decreases s.len(),
{
    if s.len() < 2 {
        None
    } else {
        let klen = be16(s.subrange(0, 2));
        if klen == 0 {
            if s.len() < 3 {
                None
            } else if s[2] == AMF0_MARKER_OBJECT_END {
                Some((Seq::<(Seq<u8>, Amf0ScalarView)>::empty(), 3))
            } else {
                None
            }
        } else if s.len() < 2 + klen {
            None
        } else {
            match spec_decode_scalar(s.skip(2 + klen)) {
                None => None,
                Some((v, n)) => {
                    if !(1 <= n <= s.len() - 2 - klen) {
                        None
                    } else {
                        match spec_decode_properties(s.skip(2 + klen + n)) {
                            None => None,
                            Some((rest, m)) => Some(
                                (seq![(s.subrange(2, 2 + klen), v)] + rest, 2 + klen + n + m),
                            ),
                        }
                    }
                },
            }
        }
    }
}

/// Reads one value from the front of `s`: the value and the bytes it took.
pub open spec fn spec_decode_value(s: Seq<u8>) -> Option<(Amf0ValueView, int)> {
    if s.len() < 1 {
        None
    } else if s[0] == AMF0_MARKER_OBJECT {
        match spec_decode_properties(s.skip(1)) {
            None => None,
            Some((props, n)) => Some((Amf0ValueView::Object(props), 1 + n)),
        }
    } else {
        match spec_decode_scalar(s) {
            None => None,
            Some((v, n)) => Some((scalar_as_value(v), n)),
        }
    }
}

/// Reads values from `s` until it is empty. `None` when `s` is not a whole
/// sequence of values.
pub open spec fn spec_decode_all(s: Seq<u8>) -> Option<Seq<Amf0ValueView>>
    decreases s.len(),
{
    if s.len() == 0 {
        Some(Seq::<Amf0ValueView>::empty())
    } else {
        match spec_decode_value(s) {
            None => None,
            Some((v, n)) => {
                if !(1 <= n <= s.len()) {
                    None
                } else {
                    match spec_decode_all(s.skip(n)) {
                        None => None,
                        Some(rest) => Some(seq![v] + rest),
                    }
                }
            },
        }
    }
}

/// The view of a value list: each value's view, in order.
pub open spec fn values_view(vals: Seq<Amf0Value>) -> Seq<Amf0ValueView> {
    Seq::new(vals.len(), |i: int| vals[i]@)
}

/// The first property with the given key, when there is one.
pub open spec fn spec_find_property(props: Seq<(Seq<u8>, Amf0ScalarView)>, key: Seq<u8>) -> Option<
    Amf0ScalarView,
>
    decreases props.len(),
{
    if props.len() == 0 {
        None
    } else if props[0].0 == key {
        Some(props[0].1)
    } else {
        spec_find_property(props.skip(1), key)
    }
}

/// Extending a property list by one property appends that property's bytes.
proof fn lemma_encode_properties_snoc(props: Seq<(Seq<u8>, Amf0ScalarView)>, i: int)
    requires
        0 <= i < props.len(),
    ensures
        spec_encode_properties(props.take(i + 1)) == spec_encode_properties(props.take(i))
            + u16_to_be(props[i].0.len() as u16) + props[i].0 + spec_encode_scalar(props[i].1),
    decreases i,
{
    if i == 0 {
        assert(props.take(1) =~= seq![props[0]]);
        assert(props.take(1).skip(1) =~= Seq::<(Seq<u8>, Amf0ScalarView)>::empty());
        assert(props.take(0) =~= Seq::<(Seq<u8>, Amf0ScalarView)>::empty());
        assert(props.take(1)[0] == props[0]);
        assert(spec_encode_properties(props.take(1)) == u16_to_be(
            props.take(1)[0].0.len() as u16,
        ) + props.take(1)[0].0 + spec_encode_scalar(props.take(1)[0].1)
            + spec_encode_properties(props.take(1).skip(1)));
        assert(spec_encode_properties(props.take(1)) =~= u16_to_be(props[0].0.len() as u16)
            + props[0].0 + spec_encode_scalar(props[0].1));
    } else {
        lemma_encode_properties_snoc(props.skip(1), i - 1);
        assert(props.take(i + 1).skip(1) =~= props.skip(1).take(i));
        assert(props.take(i).skip(1) =~= props.skip(1).take(i - 1));
        assert(props.take(i + 1)[0] == props[0]);
        assert(props.take(i)[0] == props[0]);
        assert(props.skip(1)[i - 1] == props[i]);
        assert(spec_encode_properties(props.take(i + 1)) == u16_to_be(
            props.take(i + 1)[0].0.len() as u16,
        ) + props.take(i + 1)[0].0 + spec_encode_scalar(props.take(i + 1)[0].1)
            + spec_encode_properties(props.take(i + 1).skip(1)));
        assert(spec_encode_properties(props.take(i)) == u16_to_be(props.take(i)[0].0.len() as u16)
            + props.take(i)[0].0 + spec_encode_scalar(props.take(i)[0].1)
            + spec_encode_properties(props.take(i).skip(1)));
        assert(spec_encode_properties(props.take(i + 1)) =~= spec_encode_properties(props.take(i))
            + u16_to_be(props[i].0.len() as u16) + props[i].0 + spec_encode_scalar(props[i].1));
    }
}

/// A scalar's encoding is short: at most the string bound plus its frame.
pub proof fn lemma_encode_scalar_len(v: Amf0ScalarView)
    requires
        wf_scalar(v),
    ensures
        spec_encode_scalar(v).len() <= 0x10002,
{
}

/// A property list's encoding grows by a bounded amount per property.
pub proof fn lemma_encode_properties_len(props: Seq<(Seq<u8>, Amf0ScalarView)>)
    requires
        wf_props(props),
    ensures
        spec_encode_properties(props).len() <= props.len() * 0x30004,
    decreases props.len(),
{
    if props.len() == 0 {
    } else {
        assert(wf_property(props[0]));
        lemma_encode_scalar_len(props[0].1);
        assert(wf_props(props.skip(1))) by {
            assert(forall|i: int|
                0 <= i < props.skip(1).len() ==> props.skip(1)[i] == props[i + 1]);
        }
        lemma_encode_properties_len(props.skip(1));
    }
}

/// A value's encoding is short, with the object bound growing per property.
pub proof fn lemma_encode_value_len(v: Amf0ValueView)
    requires
        wf_value(v),
    ensures
        v is Object ==> spec_encode_value(v).len() <= 4 + v->Object_0.len() * 0x30004,
        !(v is Object) ==> spec_encode_value(v).len() <= 0x10003,
{
    match v {
        Amf0ValueView::Object(props) => {
            lemma_encode_properties_len(props);
        },
        _ => {},
    }
}

/// Reads values from a byte buffer in the wire format.
pub struct Amf0Decoder;

impl Amf0Decoder {
    /// Reads one scalar starting at `pos`; returns it with the position
    /// after it.
    fn decode_scalar(buf: &Vec<u8>, pos: usize) -> (r: Option<(Amf0Scalar, usize)>)
        requires
            pos <= buf.len(),
        ensures
            match r {
                Some(p) => spec_decode_scalar(buf@.skip(pos as int)) == Some((p.0@, p.1 - pos))
                    && pos < p.1 <= buf.len(),
                None => spec_decode_scalar(buf@.skip(pos as int)) is None,
            },
    {
        let ghost s = buf@.skip(pos as int);
        if pos >= buf.len() {
            return None;
        }
        let marker = buf[pos];
        proof {
            assert(s[0] == buf@[pos as int]);
        }
        if marker == AMF0_MARKER_NUMBER {
            if buf.len() - pos < 9 {
                return None;
            }
            let bits = get_be_u64(buf, pos + 1);
            proof {
                assert(s.subrange(1, 9) =~= buf@.subrange(pos + 1, pos + 9));
                assert(0 <= be64(s.subrange(1, 9)) < 0x10000000000000000);
            }
            Some((Amf0Scalar::Number(bits), pos + 9))
        } else if marker == AMF0_MARKER_BOOLEAN {
            if buf.len() - pos < 2 {
                return None;
            }
            proof {
                assert(s[1] == buf@[pos + 1]);
            }
            Some((Amf0Scalar::Boolean(buf[pos + 1] != 0), pos + 2))
        } else if marker == AMF0_MARKER_STRING {
            if buf.len() - pos < 3 {
                return None;
            }
            let klen = get_be_u16(buf, pos + 1) as usize;
            proof {
                assert(s.subrange(1, 3) =~= buf@.subrange(pos + 1, pos + 3));
            }
            if buf.len() - pos - 3 < klen {
                return None;
            }
            let mut sv: Vec<u8> = Vec::new();
            push_slice_range(&mut sv, buf, pos + 3, pos + 3 + klen);
            proof {
                assert(s.subrange(3, 3 + klen as int) =~= buf@.subrange(
                    pos + 3,
                    pos + 3 + klen as int,
                ));
            }
            Some((Amf0Scalar::Str(sv), pos + 3 + klen))
        } else if marker == AMF0_MARKER_NULL {
            Some((Amf0Scalar::Null, pos + 1))
        } else {
            None
        }
    }

    /// Reads an object's property list starting at `pos`, terminator
    /// included; returns the properties with the position after them.
    fn decode_properties(buf: &Vec<u8>, pos: usize) -> (r: Option<(Vec<Amf0Property>, usize)>)
        requires
            pos <= buf.len(),
        ensures
            match r {
                Some(p) => spec_decode_properties(buf@.skip(pos as int)) == Some(
                    (props_view(p.0@), p.1 - pos),
                ) && pos < p.1 <= buf.len(),
                None => spec_decode_properties(buf@.skip(pos as int)) is None,
            },
    {
        let ghost start = pos as int;
        let mut cur = pos;
        let mut acc: Vec<Amf0Property> = Vec::new();
        loop
            invariant
                start == pos as int,
                start <= cur <= buf.len(),
                spec_decode_properties(buf@.skip(start)) == (match spec_decode_properties(
                    buf@.skip(cur as int),
                ) {
                    None => None::<(Seq<(Seq<u8>, Amf0ScalarView)>, int)>,
                    Some((rest, m)) => Some((props_view(acc@) + rest, cur - start + m)),
                }),
            decreases buf.len() - cur,
        {
            let ghost s = buf@.skip(cur as int);
            if buf.len() - cur < 2 {
                return None;
            }
            let klen = get_be_u16(buf, cur) as usize;
            proof {
                assert(s.subrange(0, 2) =~= buf@.subrange(cur as int, cur + 2));
            }
            if klen == 0 {
                if buf.len() - cur < 3 {
                    return None;
                }
                proof {
                    assert(s[2] == buf@[cur + 2]);
                }
                if buf[cur + 2] == AMF0_MARKER_OBJECT_END {
                    proof {
                        assert(spec_decode_properties(s) == Some(
                            (Seq::<(Seq<u8>, Amf0ScalarView)>::empty(), 3int),
                        ));
                        assert(props_view(acc@) + Seq::<(Seq<u8>, Amf0ScalarView)>::empty()
                            =~= props_view(acc@));
                    }
                    return Some((acc, cur + 3));
                }
                return None;
            }
            if buf.len() - cur - 2 < klen {
                return None;
            }
            let mut key: Vec<u8> = Vec::new();
            push_slice_range(&mut key, buf, cur + 2, cur + 2 + klen);
            proof {
                assert(s.subrange(2, 2 + klen as int) =~= buf@.subrange(
                    cur + 2,
                    cur + 2 + klen as int,
                ));
                assert(s.skip(2 + klen as int) =~= buf@.skip(cur + 2 + klen as int));
            }
            let (value, vend) = match Self::decode_scalar(buf, cur + 2 + klen) {
                Some(p) => p,
                None => {
                    return None;
                },
            };
            let ghost n = vend - (cur + 2 + klen as int);
            let ghost prop = (s.subrange(2, 2 + klen as int), value@);
            proof {
                assert(spec_decode_scalar(s.skip(2 + klen as int)) == Some((value@, n)));
                assert(1 <= n <= s.len() - 2 - klen);
                assert(s.skip(2 + klen as int + n) =~= buf@.skip(vend as int));
            }
            let ghost old_acc = acc@;
            let property = Amf0Property { key, value };
            proof {
                assert(property@ == prop);
            }
            acc.push(property);
            proof {
                assert(props_view(acc@) =~= props_view(old_acc) + seq![prop]);
                assert forall|rest: Seq<(Seq<u8>, Amf0ScalarView)>| #[trigger] (props_view(acc@)
                    + rest) == props_view(old_acc) + (seq![prop] + rest) by {
                    vstd::seq_lib::lemma_concat_associative(props_view(old_acc), seq![prop], rest);
                }
            }
            cur = vend;
        }
    }

    /// Reads one value starting at `pos`; returns it with the position
    /// after it.
    pub fn decode_value(buf: &Vec<u8>, pos: usize) -> (r: Option<(Amf0Value, usize)>)
        requires
            pos <= buf.len(),
        ensures
            match r {
                Some(p) => spec_decode_value(buf@.skip(pos as int)) == Some((p.0@, p.1 - pos))
                    && pos < p.1 <= buf.len(),
                None => spec_decode_value(buf@.skip(pos as int)) is None,
            },
    {
        let ghost s = buf@.skip(pos as int);
        if pos >= buf.len() {
            return None;
        }
        proof {
            assert(s[0] == buf@[pos as int]);
        }
        if buf[pos] == AMF0_MARKER_OBJECT {
            proof {
                assert(s.skip(1) =~= buf@.skip(pos + 1));
            }
            match Self::decode_properties(buf, pos + 1) {
                Some((props, n)) => Some((Amf0Value::Object(props), n)),
                None => None,
            }
        } else {
            match Self::decode_scalar(buf, pos) {
                Some((v, n)) => {
                    let value = match v {
                        Amf0Scalar::Number(bits) => Amf0Value::Number(bits),
                        Amf0Scalar::Boolean(b) => Amf0Value::Boolean(b),
                        Amf0Scalar::Str(sv) => Amf0Value::Str(sv),
                        Amf0Scalar::Null => Amf0Value::Null,
                    };
                    Some((value, n))
                },
                None => None,
            }
        }
    }

    /// Reads values until the buffer is exhausted; `None` when the buffer
    /// is not a whole sequence of values.
    pub fn decode_all(buf: &Vec<u8>) -> (r: Option<Vec<Amf0Value>>)
        ensures
            match r {
                Some(vals) => spec_decode_all(buf@) == Some(values_view(vals@)),
                None => spec_decode_all(buf@) is None,
            },
    {
        let mut pos: usize = 0;
        let mut acc: Vec<Amf0Value> = Vec::new();
        proof {
            assert(buf@.skip(0) =~= buf@);
        }
        loop
            invariant
                pos <= buf.len(),
                spec_decode_all(buf@) == (match spec_decode_all(buf@.skip(pos as int)) {
                    None => None::<Seq<Amf0ValueView>>,
                    Some(rest) => Some(values_view(acc@) + rest),
                }),
            decreases buf.len() - pos,
        {
            if pos >= buf.len() {
                proof {
                    assert(buf@.skip(pos as int) =~= Seq::<u8>::empty());
                    assert(values_view(acc@) + Seq::<Amf0ValueView>::empty() =~= values_view(
                        acc@,
                    ));
                }
                return Some(acc);
            }
            let (value, vend) = match Self::decode_value(buf, pos) {
                Some(p) => p,
                None => {
                    return None;
                },
            };
            proof {
                assert(buf@.skip(pos as int).skip(vend - pos) =~= buf@.skip(vend as int));
            }
            let ghost old_acc = acc@;
            let ghost v_view = value@;
            acc.push(value);
            proof {
                assert(values_view(acc@) =~= values_view(old_acc) + seq![v_view]);
                assert forall|rest: Seq<Amf0ValueView>| #[trigger] (values_view(acc@) + rest)
                    == values_view(old_acc) + (seq![v_view] + rest) by {
                    vstd::seq_lib::lemma_concat_associative(
                        values_view(old_acc),
                        seq![v_view],
                        rest,
                    );
                }
            }
            pos = vend;
        }
    }
}

/// What a number's bit pattern names as an unsigned 32-bit integer, the
/// way a saturating cast reads it: negative values and values below one
/// give 0, values at or above the 32-bit range give the maximum, and other
/// values are truncated toward zero. Values that are not numbers give 0.
pub open spec fn spec_number_as_u32(bits: u64) -> u32 {
    let sign = bits / 0x8000000000000000;
    let exp = (bits / 0x10000000000000) % 0x800;
    let frac = bits % 0x10000000000000;
    if sign == 1 {
        0
    } else if exp == 0x7FF {
        if frac == 0 {
            0xFFFFFFFF
        } else {
            0
        }
    } else if exp < 1023 {
        0
    } else if exp >= 1055 {
        0xFFFFFFFF
    } else {
        (((0x10000000000000 + frac) as u64) >> ((52 - (exp - 1023)) as u64)) as u32
    }
}

/// Reads a number's bit pattern as an unsigned 32-bit integer.
pub fn number_as_u32(bits: u64) -> (r: u32)
    ensures
        r == spec_number_as_u32(bits),
{
    let sign = bits / 0x8000000000000000;
    let exp = (bits / 0x10000000000000) % 0x800;
    let frac = bits % 0x10000000000000;
    if sign == 1 {
        0
    } else if exp == 0x7FF {
        if frac == 0 {
            0xFFFFFFFF
        } else {
            0
        }
    } else if exp < 1023 {
        0
    } else if exp >= 1055 {
        0xFFFFFFFF
    } else {
        #[verifier::truncate]
        let r = ((0x10000000000000u64 + frac) >> ((52 - (exp - 1023)) as u64)) as u32;
        r
    }
}

/// A scalar's encoding reads back as the same scalar, whatever follows it.
pub proof fn lemma_scalar_round_trip(v: Amf0ScalarView, rest: Seq<u8>)
    requires
        wf_scalar(v),
    ensures
        spec_decode_scalar(spec_encode_scalar(v) + rest) == Some(
            (v, spec_encode_scalar(v).len() as int),
        ),
        1 <= spec_encode_scalar(v).len(),
        (spec_encode_scalar(v) + rest).skip(spec_encode_scalar(v).len() as int) == rest,
{
    let enc = spec_encode_scalar(v);
    let s = enc + rest;
    match v {
        Amf0ScalarView::Number(bits) => {
            assert(s[0] == AMF0_MARKER_NUMBER);
            assert(s.subrange(1, 9) =~= crate::bytes_util::u64_to_be(bits));
            crate::bytes_util::lemma_be64_round_trip(bits);
        },
        Amf0ScalarView::Boolean(b) => {
            assert(s[0] == AMF0_MARKER_BOOLEAN);
            assert(s[1] == (if b {
                1u8
            } else {
                0u8
            }));
        },
        Amf0ScalarView::Str(t) => {
            assert(s[0] == AMF0_MARKER_STRING);
            assert(s.subrange(1, 3) =~= u16_to_be(t.len() as u16));
            crate::bytes_util::lemma_be16_round_trip(t.len() as u16);
            assert(s.subrange(3, 3 + t.len() as int) =~= t);
        },
        Amf0ScalarView::Null => {
            assert(s[0] == AMF0_MARKER_NULL);
        },
    }
    assert(s.skip(enc.len() as int) =~= rest);
}

/// An object's encoded property list, terminator included, reads back as
/// the same properties, whatever follows it.
#[verifier::rlimit(100)]
#[verifier::spinoff_prover]
pub proof fn lemma_properties_round_trip(props: Seq<(Seq<u8>, Amf0ScalarView)>, rest: Seq<u8>)
    requires
        wf_props(props),
    ensures
        spec_decode_properties(spec_encode_properties(props) + spec_object_end() + rest) == Some(
            (props, spec_encode_properties(props).len() + 3int),
        ),
        (spec_encode_properties(props) + spec_object_end() + rest).skip(
            spec_encode_properties(props).len() + 3int,
        ) == rest,
    decreases props.len(),
{
    let enc = spec_encode_properties(props);
    let s = enc + spec_object_end() + rest;
    if props.len() == 0 {
        assert(s =~= spec_object_end() + rest);
        assert(s.subrange(0, 2) =~= seq![0u8, 0u8]);
        assert(s[2] == AMF0_MARKER_OBJECT_END);
        assert(spec_decode_properties(s) == Some(
            (Seq::<(Seq<u8>, Amf0ScalarView)>::empty(), 3int),
        ));
        assert(props =~= Seq::<(Seq<u8>, Amf0ScalarView)>::empty());
        assert(s.skip(3) =~= rest);
    } else {
        assert(wf_property(props[0]));
        let key = props[0].0;
        let klen = key.len() as int;
        let venc = spec_encode_scalar(props[0].1);
        let tail_enc = spec_encode_properties(props.skip(1));
        assert(enc == u16_to_be(key.len() as u16) + key + venc + tail_enc);
        assert(s.subrange(0, 2) =~= u16_to_be(key.len() as u16));
        crate::bytes_util::lemma_be16_round_trip(key.len() as u16);
        assert(be16(s.subrange(0, 2)) == klen);
        assert(s.subrange(2, 2 + klen) =~= key);
        assert(s.skip(2 + klen) =~= venc + (tail_enc + spec_object_end() + rest));
        lemma_scalar_round_trip(props[0].1, tail_enc + spec_object_end() + rest);
        let n = venc.len() as int;
        assert(spec_decode_scalar(s.skip(2 + klen)) == Some((props[0].1, n)));
        assert(s.skip(2 + klen + n) =~= tail_enc + spec_object_end() + rest);
        assert(wf_props(props.skip(1))) by {
            assert(forall|i: int|
                0 <= i < props.skip(1).len() ==> props.skip(1)[i] == props[i + 1]);
        }
        lemma_properties_round_trip(props.skip(1), rest);
        assert(seq![(key, props[0].1)] + props.skip(1) =~= props);
        assert(s.skip(enc.len() + 3int) =~= rest) by {
            assert(s.skip(2 + klen + n).skip(tail_enc.len() + 3int) =~= rest);
            assert(s.skip(2 + klen + n).skip(tail_enc.len() + 3int) =~= s.skip(enc.len() + 3int));
        }
    }
}

/// A value's encoding reads back as the same value, whatever follows it.
pub proof fn lemma_value_round_trip(v: Amf0ValueView, rest: Seq<u8>)
    requires
        wf_value(v),
    ensures
        spec_decode_value(spec_encode_value(v) + rest) == Some(
            (v, spec_encode_value(v).len() as int),
        ),
        1 <= spec_encode_value(v).len(),
        (spec_encode_value(v) + rest).skip(spec_encode_value(v).len() as int) == rest,
{
    let enc = spec_encode_value(v);
    let s = enc + rest;
    match v {
        Amf0ValueView::Number(bits) => {
            lemma_scalar_round_trip(Amf0ScalarView::Number(bits), rest);
            assert(spec_encode_value(v) == spec_encode_scalar(Amf0ScalarView::Number(bits)));
        },
        Amf0ValueView::Boolean(b) => {
            lemma_scalar_round_trip(Amf0ScalarView::Boolean(b), rest);
            assert(spec_encode_value(v) == spec_encode_scalar(Amf0ScalarView::Boolean(b)));
        },
        Amf0ValueView::Str(t) => {
            lemma_scalar_round_trip(Amf0ScalarView::Str(t), rest);
            assert(spec_encode_value(v) == spec_encode_scalar(Amf0ScalarView::Str(t)));
        },
        Amf0ValueView::Object(props) => {
            assert(s[0] == AMF0_MARKER_OBJECT);
            assert(s.skip(1) =~= spec_encode_properties(props) + spec_object_end() + rest);
            lemma_properties_round_trip(props, rest);
        },
        Amf0ValueView::Null => {
            lemma_scalar_round_trip(Amf0ScalarView::Null, rest);
            assert(spec_encode_value(v) == spec_encode_scalar(Amf0ScalarView::Null));
        },
    }
    assert(s.skip(enc.len() as int) =~= rest);
}

/// The concatenated encodings of a list of values.
pub open spec fn spec_encode_values(vals: Seq<Amf0ValueView>) -> Seq<u8>
    decreases vals.len(),
{
    if vals.len() == 0 {
        Seq::<u8>::empty()
    } else {
        spec_encode_value(vals[0]) + spec_encode_values(vals.skip(1))
    }
}

/// Every value in a list fits the wire format.
pub open spec fn wf_values(vals: Seq<Amf0ValueView>) -> bool {
    forall|i: int| 0 <= i < vals.len() ==> #[trigger] wf_value(vals[i])
}

/// Round trip: a whole sequence of encoded values reads back as the same
/// values.
pub proof fn lemma_decode_all_round_trip(vals: Seq<Amf0ValueView>)
    requires
        wf_values(vals),
    ensures
        spec_decode_all(spec_encode_values(vals)) == Some(vals),
    decreases vals.len(),
{
    let s = spec_encode_values(vals);
    if vals.len() == 0 {
        assert(vals =~= Seq::<Amf0ValueView>::empty());
    } else {
        assert(wf_value(vals[0]));
        let enc = spec_encode_value(vals[0]);
        let tail = spec_encode_values(vals.skip(1));
        assert(s == enc + tail);
        lemma_value_round_trip(vals[0], tail);
        assert(s.len() >= enc.len());
        assert(wf_values(vals.skip(1))) by {
            assert(forall|i: int| 0 <= i < vals.skip(1).len() ==> vals.skip(1)[i] == vals[i + 1]);
        }
        lemma_decode_all_round_trip(vals.skip(1));
        assert(seq![vals[0]] + vals.skip(1) =~= vals);
    }
}

/// Returns the index of the first property with the given key, when there
/// is one.
pub fn find_property_index(props: &Vec<Amf0Property>, key: &[u8]) -> (r: Option<usize>)
    ensures
        match r {
            Some(i) => i < props.len() && props@[i as int]@.0 == key@ && spec_find_property(
                props_view(props@),
                key@,
            ) == Some(props@[i as int]@.1),
            None => spec_find_property(props_view(props@), key@) is None,
        },
{
    let ghost pview = props_view(props@);
    let mut i: usize = 0;
    proof {
        assert(pview.skip(0) =~= pview);
    }
    loop
        invariant
            i <= props.len(),
            pview == props_view(props@),
            spec_find_property(pview, key@) == spec_find_property(pview.skip(i as int), key@),
        decreases props.len() - i,
    {
        if i >= props.len() {
            proof {
                assert(pview.skip(i as int) =~= Seq::<(Seq<u8>, Amf0ScalarView)>::empty());
            }
            return None;
        }
        proof {
            assert(pview.skip(i as int)[0] == pview[i as int]);
        }
        if crate::bytes_util::bytes_eq(&props[i].key, key) {
            return Some(i);
        }
        proof {
            assert(pview.skip(i as int).skip(1) =~= pview.skip(i + 1));
        }
        i = i + 1;
    }
}

} // verus!
