//! Writing plain-old-data objects ("pods") of the SPA wire format.
//!
//! A pod is a little-endian size, a little-endian type tag and a body, padded to
//! a multiple of eight bytes. The size counts the body without its padding.

use vstd::prelude::*;

verus! {

pub const SPA_TYPE_ID: u32 = 3;

pub const SPA_TYPE_INT: u32 = 4;

pub const SPA_TYPE_RECTANGLE: u32 = 10;

pub const SPA_TYPE_FRACTION: u32 = 11;

pub const SPA_TYPE_OBJECT: u32 = 15;

pub const SPA_TYPE_CHOICE: u32 = 19;

/// A choice between a least and a greatest value.
pub const SPA_CHOICE_RANGE: u32 = 1;

/// A choice among listed values.
pub const SPA_CHOICE_ENUM: u32 = 3;

/// The property must be part of the negotiated object.
pub const PROP_FLAG_MANDATORY: u32 = 8;

/// The listed values are alternatives to pick from.
pub const PROP_FLAG_DONT_FIXATE: u32 = 16;

/// Both flags of a property that offers a choice.
pub const CHOICE_FLAGS: u32 = 24;

/// The four bytes of a word, least significant first.
pub open spec fn le32(v: u32) -> Seq<u8> {
    seq![
        (v % 0x100) as u8,
        (v / 0x100 % 0x100) as u8,
        (v / 0x1_0000 % 0x100) as u8,
        (v / 0x100_0000) as u8,
    ]
}

/// How many bytes pad a body of the given length to a multiple of eight.
pub open spec fn padding(len: nat) -> nat {
    ((8 - len % 8) % 8) as nat
}

pub open spec fn zeros(n: nat) -> Seq<u8> {
    Seq::new(n, |i: int| 0u8)
}

/// A pod with the given type tag and body.
pub open spec fn pod(tag: u32, body: Seq<u8>) -> Seq<u8> {
    le32(body.len() as u32) + le32(tag) + body + zeros(padding(body.len()))
}

pub open spec fn int_pod(v: i32) -> Seq<u8> {
    pod(SPA_TYPE_INT, le32(v as u32))
}

pub open spec fn id_pod(v: u32) -> Seq<u8> {
    pod(SPA_TYPE_ID, le32(v))
}

/// Two words one after the other: a rectangle or a fraction.
pub open spec fn pair(v: (u32, u32)) -> Seq<u8> {
    le32(v.0) + le32(v.1)
}

/// The words of a list, one after the other.
pub open spec fn words(vs: Seq<u32>) -> Seq<u8>
    decreases vs.len(),
{
    if vs.len() == 0 {
        seq![]
    } else {
        words(vs.drop_last()) + le32(vs.last())
    }
}

/// A choice of the given kind; `values` holds the default and then the
/// alternatives or bounds, each `child_size` bytes long.
pub open spec fn choice_pod(kind: u32, child_size: u32, child_tag: u32, values: Seq<u8>) -> Seq<u8> {
    pod(SPA_TYPE_CHOICE, le32(kind) + le32(0) + le32(child_size) + le32(child_tag) + values)
}

/// A property of an object: its key, its flags and its value.
pub open spec fn property(key: u32, flags: u32, value: Seq<u8>) -> Seq<u8> {
    le32(key) + le32(flags) + value
}

/// An object of the given type and id with the given properties.
pub open spec fn object_pod(object_type: u32, id: u32, properties: Seq<u8>) -> Seq<u8> {
    pod(SPA_TYPE_OBJECT, le32(object_type) + le32(id) + properties)
}

proof fn lemma_padded_length(len: nat)
    ensures
        (8 + len + padding(len)) % 8 == 0,
{
    let rest = (len % 8) as int;
    let eights = (len / 8) as int;
    assert(len == 8 * eights + rest);
    assert(padding(len) == if rest == 0 {
        0
    } else {
        8 - rest
    });
}

proof fn lemma_pod_length(tag: u32, body: Seq<u8>)
    ensures
        pod(tag, body).len() == 8 + body.len() + padding(body.len()),
{
    assert(le32(tag).len() == 4);
    assert(le32(body.len() as u32).len() == 4);
    assert(zeros(padding(body.len())).len() == padding(body.len()));
}

/// A pod's length is a multiple of eight: header, body and padding.
pub proof fn law_pods_are_aligned(tag: u32, body: Seq<u8>)
    ensures
        pod(tag, body).len() == 8 + body.len() + padding(body.len()),
        pod(tag, body).len() % 8 == 0,
{
    lemma_pod_length(tag, body);
    lemma_padded_length(body.len());
}

/// The value of the word that starts at `at`.
#[verifier::opaque]
pub open spec fn word_at(bytes: Seq<u8>, at: int) -> int {
    bytes[at] + 0x100 * bytes[at + 1] + 0x1_0000 * bytes[at + 2] + 0x100_0000 * bytes[at + 3]
}

/// Reading the first two words of a pod gives back the body's length and the
/// type tag, and the body follows them.
pub proof fn law_pod_header_reads_back(tag: u32, body: Seq<u8>)
    requires
        body.len() <= u32::MAX,
    ensures
        word_at(pod(tag, body), 0) == body.len(),
        word_at(pod(tag, body), 4) == tag,
        pod(tag, body).subrange(8, 8 + body.len() as int) == body,
{
    reveal(word_at);
    let p = pod(tag, body);
    let n = body.len() as u32;
    assert(p[0] == le32(n)[0] && p[1] == le32(n)[1] && p[2] == le32(n)[2] && p[3] == le32(n)[3]);
    assert(p[4] == le32(tag)[0] && p[5] == le32(tag)[1] && p[6] == le32(tag)[2] && p[7] == le32(
        tag,
    )[3]);
    lemma_word_reads_back(n);
    lemma_word_reads_back(tag);
    assert(p.subrange(8, 8 + body.len() as int) =~= body);
}

proof fn lemma_word_reads_back(v: u32)
    ensures
        word_at(le32(v), 0) == v,
{
    reveal(word_at);
    let b = le32(v);
    assert(b[0] == v % 0x100);
    assert(b[1] == v / 0x100 % 0x100);
    assert(b[2] == v / 0x1_0000 % 0x100);
    assert(b[3] == v / 0x100_0000);
}

fn push_le32(buf: &mut Vec<u8>, v: u32)
    ensures
        final(buf)@ == old(buf)@ + le32(v),
{
    let ghost before = buf@;
    buf.push((v % 0x100) as u8);
    buf.push((v / 0x100 % 0x100) as u8);
    buf.push((v / 0x1_0000 % 0x100) as u8);
    buf.push((v / 0x100_0000) as u8);
    assert(buf@ =~= before + le32(v));
}

fn push_zeros(buf: &mut Vec<u8>, n: usize)
    ensures
        final(buf)@ == old(buf)@ + zeros(n as nat),
{
    let ghost before = buf@;
    let mut i: usize = 0;
    while i < n
        invariant
            i <= n,
            buf@ == before + zeros(i as nat),
        decreases n - i,
    {
        buf.push(0);
        i += 1;
        assert(buf@ =~= before + zeros(i as nat));
    }
    assert(buf@ =~= before + zeros(n as nat));
}

fn push_bytes(buf: &mut Vec<u8>, bytes: &Vec<u8>)
    ensures
        final(buf)@ == old(buf)@ + bytes@,
{
    let ghost before = buf@;
    let mut i: usize = 0;
    while i < bytes.len()
        invariant
            i <= bytes@.len(),
            buf@ == before + bytes@.take(i as int),
        decreases bytes@.len() - i,
    {
        buf.push(bytes[i]);
        i += 1;
        assert(buf@ =~= before + bytes@.take(i as int));
    }
    assert(buf@ =~= before + bytes@);
}

/// A growing buffer of pods.
pub struct PodBuilder {
    buf: Vec<u8>,
}

impl View for PodBuilder {
    type V = Seq<u8>;

    closed spec fn view(&self) -> Seq<u8> {
        self.buf@
    }
}

/// The offset at which an object that is still open starts.
#[derive(Debug, Clone, Copy, PartialEq, Eq, Structural)]
pub struct ObjectStart {
    pub offset: usize,
}

impl PodBuilder {
    /// The bytes that fit before the buffer has to grow.
    pub const INITIAL_CAPACITY: usize = 256;

    pub fn new() -> (r: Self)
        ensures
            r@ == Seq::<u8>::empty(),
    {
        PodBuilder { buf: Vec::with_capacity(Self::INITIAL_CAPACITY) }
    }

    fn push_pod(&mut self, tag: u32, body: &Vec<u8>)
        requires
            body@.len() <= u32::MAX,
        ensures
            final(self)@ == old(self)@ + pod(tag, body@),
    {
        let ghost before = self@;
        let len: usize = body.len();
        push_le32(&mut self.buf, len as u32);
        push_le32(&mut self.buf, tag);
        push_bytes(&mut self.buf, body);
        push_zeros(&mut self.buf, (8 - len % 8) % 8);
        assert(self@ =~= before + pod(tag, body@));
    }

    /// Appends an integer.
    pub fn add_int_primitive(&mut self, val: i32)
        ensures
            final(self)@ == old(self)@ + int_pod(val),
    {
        let mut body: Vec<u8> = Vec::new();
        push_le32(&mut body, val as u32);
        assert(body@ =~= le32(val as u32));
        self.push_pod(SPA_TYPE_INT, &body);
    }

    /// Opens an object; its size is filled in when it is closed.
    pub fn push_object(&mut self, object_type: u32, id: u32) -> (start: ObjectStart)
        ensures
            start.offset == old(self)@.len(),
            final(self)@ == old(self)@ + (le32(0) + le32(SPA_TYPE_OBJECT) + le32(object_type) + le32(
                id,
            )),
    {
        let ghost before = self@;
        let start: ObjectStart = ObjectStart { offset: self.buf.len() };
        push_le32(&mut self.buf, 0);
        push_le32(&mut self.buf, SPA_TYPE_OBJECT);
        push_le32(&mut self.buf, object_type);
        push_le32(&mut self.buf, id);
        assert(self@ =~= before + (le32(0) + le32(SPA_TYPE_OBJECT) + le32(object_type) + le32(id)));
        start
    }

    /// Closes the object that was opened at `start` with `object_type` and `id`:
    /// what was appended since becomes its properties.
    pub fn pop_object(&mut self, start: ObjectStart)
        requires
            start.offset + 16 <= old(self)@.len(),
            old(self)@.len() - start.offset - 8 <= u32::MAX,
        ensures
            ({
                let at = start.offset as int;
                let len = (old(self)@.len() - at - 8) as nat;
                final(self)@ == old(self)@.take(at) + le32(len as u32) + old(self)@.skip(at + 4)
                    + zeros(padding(len))
            }),
    {
        let ghost before = self@;
        let at: usize = start.offset;
        let len: usize = self.buf.len() - at - 8;
        let v: u32 = len as u32;
        self.buf.set(at, (v % 0x100) as u8);
        self.buf.set(at + 1, (v / 0x100 % 0x100) as u8);
        self.buf.set(at + 2, (v / 0x1_0000 % 0x100) as u8);
        self.buf.set(at + 3, (v / 0x100_0000) as u8);
        assert(self.buf@ =~= before.take(at as int) + le32(v) + before.skip(at + 4));
        push_zeros(&mut self.buf, (8 - len % 8) % 8);
    }

    /// Appends a property that is a plain id.
    pub fn add_id_property(&mut self, key: u32, id: u32)
        ensures
            final(self)@ == old(self)@ + property(key, 0, id_pod(id)),
    {
        let ghost before = self@;
        push_le32(&mut self.buf, key);
        push_le32(&mut self.buf, 0);
        let mut body: Vec<u8> = Vec::new();
        push_le32(&mut body, id);
        assert(body@ =~= le32(id));
        self.push_pod(SPA_TYPE_ID, &body);
        assert(self@ =~= before + property(key, 0, id_pod(id)));
    }

    fn add_choice(&mut self, key: u32, kind: u32, child_size: u32, child_tag: u32, values: &Vec<u8>)
        requires
            values@.len() + 16 <= u32::MAX,
        ensures
            final(self)@ == old(self)@ + property(
                key,
                CHOICE_FLAGS,
                choice_pod(kind, child_size, child_tag, values@),
            ),
    {
        let ghost before = self@;
        push_le32(&mut self.buf, key);
        push_le32(&mut self.buf, CHOICE_FLAGS);
        let mut body: Vec<u8> = Vec::new();
        push_le32(&mut body, kind);
        push_le32(&mut body, 0);
        push_le32(&mut body, child_size);
        push_le32(&mut body, child_tag);
        push_bytes(&mut body, values);
        assert(body@ =~= le32(kind) + le32(0) + le32(child_size) + le32(child_tag) + values@);
        self.push_pod(SPA_TYPE_CHOICE, &body);
        assert(self@ =~= before + property(
            key,
            CHOICE_FLAGS,
            choice_pod(kind, child_size, child_tag, values@),
        ));
    }

    /// Appends a property whose id is to be picked from `alternatives`.
    pub fn add_choice_id_enum(&mut self, key: u32, default: u32, alternatives: &[u32])
        requires
            alternatives@.len() * 4 + 20 <= u32::MAX,
        ensures
            final(self)@ == old(self)@ + property(
                key,
                CHOICE_FLAGS,
                choice_pod(SPA_CHOICE_ENUM, 4, SPA_TYPE_ID, le32(default) + words(alternatives@)),
            ),
    {
        let mut values: Vec<u8> = Vec::new();
        push_le32(&mut values, default);
        assert(values@ =~= le32(default) + words(alternatives@.take(0)));
        let mut i: usize = 0;
        while i < alternatives.len()
            invariant
                i <= alternatives@.len(),
                values@ == le32(default) + words(alternatives@.take(i as int)),
                values@.len() == 4 + 4 * i,
            decreases alternatives@.len() - i,
        {
            push_le32(&mut values, alternatives[i]);
            proof {
                let next = alternatives@.take(i + 1);
                assert(next.drop_last() =~= alternatives@.take(i as int));
                assert(values@ =~= le32(default) + words(next));
            }
            i += 1;
        }
        assert(alternatives@.take(i as int) =~= alternatives@);
        self.add_choice(key, SPA_CHOICE_ENUM, 4, SPA_TYPE_ID, &values);
    }

    fn add_choice_pair_range(
        &mut self,
        key: u32,
        child_tag: u32,
        default: (u32, u32),
        min: (u32, u32),
        max: (u32, u32),
    )
        ensures
            final(self)@ == old(self)@ + property(
                key,
                CHOICE_FLAGS,
                choice_pod(SPA_CHOICE_RANGE, 8, child_tag, pair(default) + pair(min) + pair(max)),
            ),
    {
        let mut values: Vec<u8> = Vec::new();
        push_le32(&mut values, default.0);
        push_le32(&mut values, default.1);
        push_le32(&mut values, min.0);
        push_le32(&mut values, min.1);
        push_le32(&mut values, max.0);
        push_le32(&mut values, max.1);
        assert(values@ =~= pair(default) + pair(min) + pair(max));
        self.add_choice(key, SPA_CHOICE_RANGE, 8, child_tag, &values);
    }

    /// Appends a property whose rectangle lies between two others.
    pub fn add_choice_rectangle_range(
        &mut self,
        key: u32,
        default: (u32, u32),
        min: (u32, u32),
        max: (u32, u32),
    )
        ensures
            final(self)@ == old(self)@ + property(
                key,
                CHOICE_FLAGS,
                choice_pod(
                    SPA_CHOICE_RANGE,
                    8,
                    SPA_TYPE_RECTANGLE,
                    pair(default) + pair(min) + pair(max),
                ),
            ),
    {
        self.add_choice_pair_range(key, SPA_TYPE_RECTANGLE, default, min, max);
    }

    /// Appends a property whose fraction lies between two others.
    pub fn add_choice_fraction_range(
        &mut self,
        key: u32,
        default: (u32, u32),
        min: (u32, u32),
        max: (u32, u32),
    )
        ensures
            final(self)@ == old(self)@ + property(
                key,
                CHOICE_FLAGS,
                choice_pod(
                    SPA_CHOICE_RANGE,
                    8,
                    SPA_TYPE_FRACTION,
                    pair(default) + pair(min) + pair(max),
                ),
            ),
    {
        self.add_choice_pair_range(key, SPA_TYPE_FRACTION, default, min, max);
    }

    /// The bytes written so far.
    pub fn finish(self) -> (r: Vec<u8>)
        ensures
            r@ == self@,
    {
        self.buf
    }
}

impl Default for PodBuilder {
    fn default() -> (r: Self)
        ensures
            r@ == Seq::<u8>::empty(),
    {
        Self::new()
    }
}

/// A word reads back from its four bytes, of which the least significant comes first.
pub proof fn law_words_read_back(v: u32)
    ensures
        le32(v).len() == 4,
        le32(v)[0] + 256 * (le32(v)[1] + 256 * (le32(v)[2] + 256 * le32(v)[3])) == v,
        word_at(le32(v), 0) == v,
{
    lemma_word_reads_back(v);
    assert(le32(v)[0] == v % 0x100);
    assert(le32(v)[1] == v / 0x100 % 0x100);
    assert(le32(v)[2] == v / 0x1_0000 % 0x100);
    assert(le32(v)[3] == v / 0x100_0000);
}

proof fn lemma_word_inside(front: Seq<u8>, v: u32, back: Seq<u8>)
    ensures
        word_at(front + le32(v) + back, front.len() as int) == v,
{
    reveal(word_at);
    let all = front + le32(v) + back;
    let n = front.len() as int;
    assert(all[n] == le32(v)[0] && all[n + 1] == le32(v)[1] && all[n + 2] == le32(v)[2] && all[n
        + 3] == le32(v)[3]);
    lemma_word_reads_back(v);
}

/// A property starts with its key and its flags, and its value follows.
pub proof fn law_properties_read_back(key: u32, flags: u32, value: Seq<u8>)
    ensures
        word_at(property(key, flags, value), 0) == key,
        word_at(property(key, flags, value), 4) == flags,
        property(key, flags, value).skip(8) == value,
{
    let p = property(key, flags, value);
    lemma_word_inside(Seq::<u8>::empty(), key, le32(flags) + value);
    lemma_word_inside(le32(key), flags, value);
    assert(p =~= Seq::<u8>::empty() + le32(key) + (le32(flags) + value));
    assert(p.skip(8) =~= value);
}

/// A choice (type nineteen) says how it offers its values, then nothing, then how long a
/// value is and of which type; the values follow.
pub proof fn law_choices_read_back(kind: u32, child_size: u32, child_tag: u32, values: Seq<u8>)
    requires
        values.len() + 16 <= u32::MAX,
    ensures
        ({
            let p = choice_pod(kind, child_size, child_tag, values);
            &&& word_at(p, 0) == values.len() + 16
            &&& word_at(p, 4) == 19
            &&& word_at(p, 8) == kind
            &&& word_at(p, 12) == 0
            &&& word_at(p, 16) == child_size
            &&& word_at(p, 20) == child_tag
            &&& p.subrange(24, 24 + values.len() as int) == values
        }),
{
    let body = le32(kind) + le32(0) + le32(child_size) + le32(child_tag) + values;
    let p = choice_pod(kind, child_size, child_tag, values);
    let n = values.len() as int;
    law_pod_header_reads_back(SPA_TYPE_CHOICE, body);
    lemma_word_inside(Seq::<u8>::empty(), kind, le32(0) + le32(child_size) + le32(child_tag) + values);
    assert(body =~= Seq::<u8>::empty() + le32(kind) + (le32(0) + le32(child_size) + le32(child_tag)
        + values));
    lemma_word_inside(le32(kind), 0, le32(child_size) + le32(child_tag) + values);
    assert(body =~= le32(kind) + le32(0) + (le32(child_size) + le32(child_tag) + values));
    lemma_word_inside(le32(kind) + le32(0), child_size, le32(child_tag) + values);
    assert(body =~= le32(kind) + le32(0) + le32(child_size) + (le32(child_tag) + values));
    lemma_word_inside(le32(kind) + le32(0) + le32(child_size), child_tag, values);
    lemma_word_in_body(SPA_TYPE_CHOICE, body, 0);
    lemma_word_in_body(SPA_TYPE_CHOICE, body, 4);
    lemma_word_in_body(SPA_TYPE_CHOICE, body, 8);
    lemma_word_in_body(SPA_TYPE_CHOICE, body, 12);
    assert(p.subrange(24, 24 + n) =~= p.subrange(8, 8 + body.len() as int).subrange(16, 16 + n));
    assert(body.subrange(16, 16 + n) =~= values);
}

proof fn lemma_word_in_body(tag: u32, body: Seq<u8>, at: int)
    requires
        body.len() <= u32::MAX,
        0 <= at,
        at + 4 <= body.len(),
    ensures
        word_at(pod(tag, body), 8 + at) == word_at(body, at),
{
    reveal(word_at);
    law_pod_header_reads_back(tag, body);
    let p = pod(tag, body);
    let sub = p.subrange(8, 8 + body.len() as int);
    assert(sub[at] == p[8 + at] && sub[at + 1] == p[8 + at + 1] && sub[at + 2] == p[8 + at + 2]
        && sub[at + 3] == p[8 + at + 3]);
}

proof fn lemma_one_word(tag: u32, v: u32, body: Seq<u8>)
    requires
        body == le32(v),
    ensures
        body.len() == 4,
        word_at(pod(tag, body), 0) == 4,
        word_at(pod(tag, body), 4) == tag,
        word_at(pod(tag, body), 8) == v,
{
    lemma_word_reads_back(v);
    law_pod_header_reads_back(tag, body);
    lemma_word_in_body(tag, body, 0);
}

/// An id is a pod of type three, an integer one of type four, each of four bytes.
pub proof fn law_numbers_read_back(v: u32, i: i32)
    ensures
        word_at(id_pod(v), 0) == 4,
        word_at(id_pod(v), 4) == 3,
        word_at(id_pod(v), 8) == v,
        word_at(int_pod(i), 0) == 4,
        word_at(int_pod(i), 4) == 4,
        word_at(int_pod(i), 8) == i as u32,
{
    lemma_one_word(SPA_TYPE_ID, v, le32(v));
    lemma_one_word(SPA_TYPE_INT, i as u32, le32(i as u32));
}

/// A rectangle or a fraction is its two words, one after the other.
pub proof fn law_pairs_read_back(a: u32, b: u32)
    ensures
        pair((a, b)).len() == 8,
        word_at(pair((a, b)), 0) == a,
        word_at(pair((a, b)), 4) == b,
{
    lemma_word_inside(Seq::<u8>::empty(), a, le32(b));
    assert(pair((a, b)) =~= Seq::<u8>::empty() + le32(a) + le32(b));
    lemma_word_inside(le32(a), b, Seq::<u8>::empty());
    assert(pair((a, b)) =~= le32(a) + le32(b) + Seq::<u8>::empty());
}

/// An object is a pod of type fifteen that starts with its own type and its id; its
/// properties follow.
pub proof fn law_objects_read_back(object_type: u32, id: u32, properties: Seq<u8>)
    requires
        properties.len() + 8 <= u32::MAX,
    ensures
        ({
            let p = object_pod(object_type, id, properties);
            &&& word_at(p, 0) == properties.len() + 8
            &&& word_at(p, 4) == 15
            &&& word_at(p, 8) == object_type
            &&& word_at(p, 12) == id
            &&& p.subrange(16, 16 + properties.len() as int) == properties
        }),
{
    let body = le32(object_type) + le32(id) + properties;
    let p = object_pod(object_type, id, properties);
    let n = properties.len() as int;
    law_pod_header_reads_back(SPA_TYPE_OBJECT, body);
    lemma_word_inside(Seq::<u8>::empty(), object_type, le32(id) + properties);
    assert(body =~= Seq::<u8>::empty() + le32(object_type) + (le32(id) + properties));
    lemma_word_inside(le32(object_type), id, properties);
    lemma_word_in_body(SPA_TYPE_OBJECT, body, 0);
    lemma_word_in_body(SPA_TYPE_OBJECT, body, 4);
    assert(p.subrange(16, 16 + n) =~= p.subrange(8, 8 + body.len() as int).subrange(8, 8 + n));
    assert(body.subrange(8, 8 + n) =~= properties);
}

/// The words of a list read back, each at its place.
pub proof fn law_lists_read_back(vs: Seq<u32>, i: int)
    requires
        0 <= i < vs.len(),
    ensures
        words(vs).len() == 4 * vs.len(),
        word_at(words(vs), 4 * i) == vs[i],
    decreases vs.len(),
{
    reveal(word_at);
    let front = vs.drop_last();
    lemma_list_length(front);
    lemma_list_length(vs);
    if i < vs.len() - 1 {
        law_lists_read_back(front, i);
        let a = words(front);
        let b = words(vs);
        assert(b[4 * i] == a[4 * i] && b[4 * i + 1] == a[4 * i + 1] && b[4 * i + 2] == a[4 * i + 2]
            && b[4 * i + 3] == a[4 * i + 3]);
    } else {
        lemma_word_inside(words(front), vs.last(), Seq::<u8>::empty());
        assert(words(vs) =~= words(front) + le32(vs.last()) + Seq::<u8>::empty());
    }
}

proof fn lemma_list_length(vs: Seq<u32>)
    ensures
        words(vs).len() == 4 * vs.len(),
    decreases vs.len(),
{
    if vs.len() > 0 {
        lemma_list_length(vs.drop_last());
    }
}

/// The padding of a pod is zero and shorter than eight bytes.
pub proof fn law_padding_is_short_and_zero(len: nat, i: int)
    ensures
        padding(len) < 8,
        (len + padding(len)) % 8 == 0,
        0 <= i < padding(len) ==> zeros(padding(len))[i] == 0,
{
    lemma_padded_length(len);
}

} // verus!
