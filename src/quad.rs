use vstd::prelude::*;

verus! {

/// Number of bytes one quad occupies in a GPU buffer.
pub const QUAD_BYTES: u64 = 32;

/// An RGBA color; each channel holds the bit pattern of a 32-bit float.
#[derive(Clone, Copy, Debug, PartialEq, Eq, Structural)]
pub struct Color {
    pub r: u32,
    pub g: u32,
    pub b: u32,
    pub a: u32,
}

/// An axis-aligned rectangle with a color; each field holds the bit pattern of a
/// 32-bit float.
#[derive(Clone, Copy, Debug, PartialEq, Eq, Structural)]
pub struct Quad {
    pub x: u32,
    pub y: u32,
    pub w: u32,
    pub h: u32,
    pub color: Color,
}

/// The four bytes of a 32-bit word, least significant first.
pub open spec fn le_bytes(w: u32) -> Seq<u8> {
    seq![
        (w & 0xff) as u8,
        ((w >> 8u32) & 0xff) as u8,
        ((w >> 16u32) & 0xff) as u8,
        ((w >> 24u32) & 0xff) as u8,
    ]
}

/// The 32-bit word whose little-endian bytes are `b0, b1, b2, b3`.
pub open spec fn le_word(b0: u8, b1: u8, b2: u8, b3: u8) -> u32 {
    (b0 as u32) | ((b1 as u32) << 8u32) | ((b2 as u32) << 16u32) | ((b3 as u32) << 24u32)
}

/// The eight words of a quad in buffer order: `x, y, w, h, r, g, b, a`.
pub open spec fn quad_words(q: Quad) -> Seq<u32> {
    seq![q.x, q.y, q.w, q.h, q.color.r, q.color.g, q.color.b, q.color.a]
}

/// The words of a sequence of quads, one quad after the other.
pub open spec fn quads_words(qs: Seq<Quad>) -> Seq<u32>
    decreases qs.len(),
{
    if qs.len() == 0 {
        Seq::empty()
    } else {
        quads_words(qs.drop_last()) + quad_words(qs.last())
    }
}

/// The little-endian bytes of a sequence of words.
pub open spec fn words_bytes(ws: Seq<u32>) -> Seq<u8>
    decreases ws.len(),
{
    if ws.len() == 0 {
        Seq::empty()
    } else {
        words_bytes(ws.drop_last()) + le_bytes(ws.last())
    }
}

/// The 32 bytes that represent one quad in a buffer.
pub open spec fn quad_bytes(q: Quad) -> Seq<u8> {
    words_bytes(quad_words(q))
}

/// The bytes that represent a sequence of quads in a buffer.
pub open spec fn quads_bytes(qs: Seq<Quad>) -> Seq<u8> {
    words_bytes(quads_words(qs))
}

/// The word stored at byte offset `at` of `b`.
pub open spec fn word_at(b: Seq<u8>, at: int) -> u32 {
    le_word(b[at], b[at + 1], b[at + 2], b[at + 3])
}

/// The quad whose 32 bytes start at offset `at` of `b`.
pub open spec fn quad_at(b: Seq<u8>, at: int) -> Quad {
    Quad {
        x: word_at(b, at),
        y: word_at(b, at + 4),
        w: word_at(b, at + 8),
        h: word_at(b, at + 12),
        color: Color {
            r: word_at(b, at + 16),
            g: word_at(b, at + 20),
            b: word_at(b, at + 24),
            a: word_at(b, at + 28),
        },
    }
}

/// Reading back the bytes of a word gives the word.
pub proof fn lemma_le_round_trip(w: u32)
    ensures
        le_word(le_bytes(w)[0], le_bytes(w)[1], le_bytes(w)[2], le_bytes(w)[3]) == w,
{
    let b0 = (w & 0xff) as u8;
    let b1 = ((w >> 8u32) & 0xff) as u8;
    let b2 = ((w >> 16u32) & 0xff) as u8;
    let b3 = ((w >> 24u32) & 0xff) as u8;
    assert((b0 as u32) | ((b1 as u32) << 8u32) | ((b2 as u32) << 16u32) | ((b3 as u32) << 24u32)
        == w) by (bit_vector)
        requires
            b0 == (w & 0xff) as u8,
            b1 == ((w >> 8u32) & 0xff) as u8,
            b2 == ((w >> 16u32) & 0xff) as u8,
            b3 == ((w >> 24u32) & 0xff) as u8,
    ;
}

pub proof fn lemma_words_bytes_len(ws: Seq<u32>)
    ensures
        words_bytes(ws).len() == 4 * ws.len(),
    decreases ws.len(),
{
    if ws.len() > 0 {
        lemma_words_bytes_len(ws.drop_last());
    }
}

/// Word `i` of a word sequence occupies bytes `4 * i .. 4 * i + 4` of its encoding.
pub proof fn lemma_word_position(ws: Seq<u32>, i: int)
    requires
        0 <= i < ws.len(),
    ensures
        words_bytes(ws).len() == 4 * ws.len(),
        word_at(words_bytes(ws), 4 * i) == ws[i],
    decreases ws.len(),
{
    lemma_words_bytes_len(ws);
    lemma_words_bytes_len(ws.drop_last());
    let last = ws.len() - 1;
    if i == last {
        lemma_le_round_trip(ws.last());
    } else {
        lemma_word_position(ws.drop_last(), i);
    }
}

pub proof fn lemma_quads_words_len(qs: Seq<Quad>)
    ensures
        quads_words(qs).len() == 8 * qs.len(),
    decreases qs.len(),
{
    if qs.len() > 0 {
        lemma_quads_words_len(qs.drop_last());
    }
}

/// Word `j` of quad `i` is word `8 * i + j` of the whole sequence.
pub proof fn lemma_quads_words_index(qs: Seq<Quad>, i: int, j: int)
    requires
        0 <= i < qs.len(),
        0 <= j < 8,
    ensures
        quads_words(qs).len() == 8 * qs.len(),
        quads_words(qs)[8 * i + j] == quad_words(qs[i])[j],
    decreases qs.len(),
{
    lemma_quads_words_len(qs);
    lemma_quads_words_len(qs.drop_last());
    if i < qs.len() - 1 {
        lemma_quads_words_index(qs.drop_last(), i, j);
    }
}

/// Layout of an encoded quad sequence: it is `32 * n` bytes long, and reading the
/// quad at byte offset `32 * i` gives quad `i`, its fields in the order
/// `x, y, w, h, r, g, b, a`, each a little-endian 32-bit word.
pub proof fn lemma_quads_layout(qs: Seq<Quad>, i: int)
    requires
        0 <= i < qs.len(),
    ensures
        quads_bytes(qs).len() == 32 * qs.len(),
        quad_at(quads_bytes(qs), 32 * i) == qs[i],
{
    let ws = quads_words(qs);
    lemma_quads_words_len(qs);
    lemma_words_bytes_len(ws);
    assert forall|j: int| 0 <= j < 8 implies word_at(quads_bytes(qs), 32 * i + 4 * j)
        == quad_words(qs[i])[j] by {
        lemma_quads_words_index(qs, i, j);
        lemma_word_position(ws, 8 * i + j);
        assert(4 * (8 * i + j) == 32 * i + 4 * j);
    }
    assert(word_at(quads_bytes(qs), 32 * i + 4 * 0) == quad_words(qs[i])[0]);
    assert(word_at(quads_bytes(qs), 32 * i + 4 * 1) == quad_words(qs[i])[1]);
    assert(word_at(quads_bytes(qs), 32 * i + 4 * 2) == quad_words(qs[i])[2]);
    assert(word_at(quads_bytes(qs), 32 * i + 4 * 3) == quad_words(qs[i])[3]);
    assert(word_at(quads_bytes(qs), 32 * i + 4 * 4) == quad_words(qs[i])[4]);
    assert(word_at(quads_bytes(qs), 32 * i + 4 * 5) == quad_words(qs[i])[5]);
    assert(word_at(quads_bytes(qs), 32 * i + 4 * 6) == quad_words(qs[i])[6]);
    assert(word_at(quads_bytes(qs), 32 * i + 4 * 7) == quad_words(qs[i])[7]);
}

pub proof fn lemma_quads_words_single(q: Quad)
    ensures
        quads_words(seq![q]) == quad_words(q),
{
    let qs = seq![q];
    assert(qs.drop_last() =~= Seq::<Quad>::empty());
    assert(quads_words(qs.drop_last()) =~= Seq::<u32>::empty());
    assert(quads_words(qs) =~= quad_words(q));
}

/// Round trip: reading back the 32 bytes of a quad gives the quad, bit for bit.
pub proof fn lemma_quad_round_trip(q: Quad)
    ensures
        quad_bytes(q).len() == 32,
        quad_at(quad_bytes(q), 0) == q,
{
    let qs = seq![q];
    lemma_quads_words_single(q);
    lemma_quads_layout(qs, 0);
}

impl Quad {
    /// The eight words of the quad in buffer order.
    pub fn words(&self) -> (r: [u32; 8])
        ensures
            r@ == quad_words(*self),
    {
        let r = [
            self.x,
            self.y,
            self.w,
            self.h,
            self.color.r,
            self.color.g,
            self.color.b,
            self.color.a,
        ];
        assert(r@ =~= quad_words(*self));
        r
    }
}

/// Appends the little-endian bytes of `w` to `out`.
fn push_word(out: &mut Vec<u8>, w: u32)
    ensures
        final(out)@ == old(out)@ + le_bytes(w),
{
    out.push((w & 0xff) as u8);
    out.push(((w >> 8u32) & 0xff) as u8);
    out.push(((w >> 16u32) & 0xff) as u8);
    out.push(((w >> 24u32) & 0xff) as u8);
    assert(final(out)@ =~= old(out)@ + le_bytes(w));
}

/// Serializes quads into the byte layout that the storage buffer and the shader
/// share: 32 bytes per quad, fields `x, y, w, h, r, g, b, a` as little-endian words.
pub fn encode_quads(quads: &Vec<Quad>) -> (r: Vec<u8>)
    requires
        32 * quads@.len() <= usize::MAX,
    ensures
        r@ == quads_bytes(quads@),
        r@.len() == 32 * quads@.len(),
{
    let mut out: Vec<u8> = Vec::with_capacity(quads.len() * 32);
    let mut i: usize = 0;
    while i < quads.len()
        invariant
            i <= quads@.len(),
            out@ == words_bytes(quads_words(quads@.subrange(0, i as int))),
        decreases quads@.len() - i,
    {
        let q = quads[i];
        let ws = q.words();
        let ghost before = quads_words(quads@.subrange(0, i as int));
        let mut j: usize = 0;
        while j < 8
            invariant
                j <= 8,
                ws@ == quad_words(q),
                out@ == words_bytes(before + ws@.subrange(0, j as int)),
            decreases 8 - j,
        {
            let ghost prev = before + ws@.subrange(0, j as int);
            push_word(&mut out, ws[j]);
            proof {
                let next = before + ws@.subrange(0, j as int + 1);
                assert(next.drop_last() =~= prev);
                assert(next.last() == ws@[j as int]);
            }
            j = j + 1;
        }
        proof {
            let s = quads@.subrange(0, i as int + 1);
            assert(s.drop_last() =~= quads@.subrange(0, i as int));
            assert(s.last() == q);
            assert(ws@.subrange(0, 8) =~= ws@);
        }
        i = i + 1;
    }
    proof {
        assert(quads@.subrange(0, quads@.len() as int) =~= quads@);
        lemma_quads_words_len(quads@);
        lemma_words_bytes_len(quads_words(quads@));
    }
    out
}

/// Reads the little-endian word at byte offset `at`.
fn read_word(bytes: &[u8], at: usize) -> (r: u32)
    requires
        at + 4 <= bytes@.len(),
    ensures
        r == word_at(bytes@, at as int),
{
    (bytes[at] as u32) | ((bytes[at + 1] as u32) << 8u32) | ((bytes[at + 2] as u32) << 16u32)
        | ((bytes[at + 3] as u32) << 24u32)
}

impl Quad {
    /// The 32 bytes that represent this quad in a buffer.
    pub fn to_bytes(&self) -> (r: Vec<u8>)
        ensures
            r@ == quad_bytes(*self),
            r@.len() == 32,
    {
        let v = vec![*self];
        proof {
            lemma_quads_words_single(*self);
            assert(v@ =~= seq![*self]);
        }
        encode_quads(&v)
    }

    /// Reads a quad back from its 32 bytes; `None` when `bytes` is not 32 bytes long.
    pub fn from_bytes(bytes: &[u8]) -> (r: Option<Quad>)
        ensures
            r == (if bytes@.len() == 32 {
                Some(quad_at(bytes@, 0))
            } else {
                None::<Quad>
            }),
    {
        if bytes.len() != 32 {
            return None;
        }
        Some(
            Quad {
                x: read_word(bytes, 0),
                y: read_word(bytes, 4),
                w: read_word(bytes, 8),
                h: read_word(bytes, 12),
                color: Color {
                    r: read_word(bytes, 16),
                    g: read_word(bytes, 20),
                    b: read_word(bytes, 24),
                    a: read_word(bytes, 28),
                },
            },
        )
    }
}

} // verus!
