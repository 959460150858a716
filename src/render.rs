//! Debug-overlay messages: drawable primitives inside add / remove envelopes.
//!
//! A primitive is a tag byte (0 a 2D line, 1 a 3D line, 2 a line strip)
//! followed by exactly the fields of that variant. An envelope is its own
//! total length (`u32`, counting itself), a kind byte (0 add, 1 remove), an
//! `i32` id, and for an add a `u16` count of primitives and the primitives.
use crate::bytes::{
    concat_bytes, decode_at, decode_prefix, decode_seq, lemma_concat_len, lemma_decode_seq,
    lemma_empty_concat, lemma_split_prefix, lemma_whole, ByteReader, ByteWriter, DecodeError,
    FromBytes, FromBytesExact, ToBytes, ToBytesExact,
};
use crate::math::Vec3;
use vstd::prelude::*;
use vstd::slice::slice_subrange;

verus! {

/// A point on the screen.
#[derive(Clone, Copy, Debug, PartialEq, Eq, Structural)]
pub struct Vec2 {
    pub x: u32,
    pub y: u32,
}

impl FromBytesExact for Vec2 {
    open spec fn spec_num_bytes() -> nat {
        8
    }

    open spec fn spec_from_bytes(buf: Seq<u8>) -> Result<Vec2, DecodeError> {
        let x = decode_at::<u32>(buf, 0);
        let y = decode_at::<u32>(buf, 4);
        Ok(Vec2 {
            x: x->Ok_0,
            y: y->Ok_0,
        })
    }

    fn num_bytes() -> (n: usize) {
        8
    }

    fn from_exact_bytes(bytes: &[u8]) -> (r: Result<Vec2, DecodeError>) {
        let mut reader = ByteReader::new(bytes);
        let x = reader.read::<u32>()?;
        let y = reader.read::<u32>()?;
        Ok(Vec2 { x, y })
    }
}

impl ToBytesExact for Vec2 {
    open spec fn spec_to_bytes(&self) -> Seq<u8> {
        self.x.spec_to_bytes()
            + self.y.spec_to_bytes()
    }

    proof fn lemma_round_trip(&self) {
        self.x.lemma_round_trip();
        self.y.lemma_round_trip();
        let b = self.spec_to_bytes();
        assert(b.subrange(0, 4) =~= self.x.spec_to_bytes());
        assert(b.subrange(4, 8) =~= self.y.spec_to_bytes());
    }

    fn to_bytes(&self) -> (r: Vec<u8>) {
        let mut w = ByteWriter::new();
        w.write(&self.x);
        w.write(&self.y);
        proof {
            lemma_empty_concat(self.x.spec_to_bytes());
        }
        w.inner()
    }
}

impl FromBytes for Vec2 {
    fn from_bytes(bytes: &[u8]) -> (r: Result<Vec2, DecodeError>)
        ensures
            r == decode_prefix::<Vec2>(bytes@),
    {
        let mut reader = ByteReader::new(bytes);
        reader.read::<Vec2>()
    }
}

/// A colour as red, green, blue and alpha channels.
#[derive(Clone, Copy, Debug, PartialEq, Eq, Structural)]
pub struct Color {
    pub r: u32,
    pub g: u32,
    pub b: u32,
    pub a: u32,
}

impl FromBytesExact for Color {
    open spec fn spec_num_bytes() -> nat {
        16
    }

    open spec fn spec_from_bytes(buf: Seq<u8>) -> Result<Color, DecodeError> {
        let r = decode_at::<u32>(buf, 0);
        let g = decode_at::<u32>(buf, 4);
        let b = decode_at::<u32>(buf, 8);
        let a = decode_at::<u32>(buf, 12);
        Ok(Color {
            r: r->Ok_0,
            g: g->Ok_0,
            b: b->Ok_0,
            a: a->Ok_0,
        })
    }

    fn num_bytes() -> (n: usize) {
        16
    }

    fn from_exact_bytes(bytes: &[u8]) -> (r: Result<Color, DecodeError>) {
        let mut reader = ByteReader::new(bytes);
        let r = reader.read::<u32>()?;
        let g = reader.read::<u32>()?;
        let b = reader.read::<u32>()?;
        let a = reader.read::<u32>()?;
        Ok(Color { r, g, b, a })
    }
}

impl ToBytesExact for Color {
    open spec fn spec_to_bytes(&self) -> Seq<u8> {
        self.r.spec_to_bytes()
            + self.g.spec_to_bytes()
            + self.b.spec_to_bytes()
            + self.a.spec_to_bytes()
    }

    proof fn lemma_round_trip(&self) {
        self.r.lemma_round_trip();
        self.g.lemma_round_trip();
        self.b.lemma_round_trip();
        self.a.lemma_round_trip();
        let b = self.spec_to_bytes();
        assert(b.subrange(0, 4) =~= self.r.spec_to_bytes());
        assert(b.subrange(4, 8) =~= self.g.spec_to_bytes());
        assert(b.subrange(8, 12) =~= self.b.spec_to_bytes());
        assert(b.subrange(12, 16) =~= self.a.spec_to_bytes());
    }

    fn to_bytes(&self) -> (r: Vec<u8>) {
        let mut w = ByteWriter::new();
        w.write(&self.r);
        w.write(&self.g);
        w.write(&self.b);
        w.write(&self.a);
        proof {
            lemma_empty_concat(self.r.spec_to_bytes());
        }
        w.inner()
    }
}

impl FromBytes for Color {
    fn from_bytes(bytes: &[u8]) -> (r: Result<Color, DecodeError>)
        ensures
            r == decode_prefix::<Color>(bytes@),
    {
        let mut reader = ByteReader::new(bytes);
        reader.read::<Color>()
    }
}

impl Vec2 {
    pub fn new(x: u32, y: u32) -> (r: Self)
        ensures
            r == (Vec2 { x, y }),
    {
        Vec2 { x, y }
    }
}

/// The bit pattern of the float 1.0, a fully opaque alpha.
pub const OPAQUE: u32 = 0x3F80_0000;

impl Color {
    /// An opaque colour.
    pub fn rgb(r: u32, g: u32, b: u32) -> (c: Self)
        ensures
            c == (Color { r, g, b, a: OPAQUE }),
    {
        Color { r, g, b, a: OPAQUE }
    }

    pub fn rgba(r: u32, g: u32, b: u32, a: u32) -> (c: Self)
        ensures
            c == (Color { r, g, b, a }),
    {
        Color { r, g, b, a }
    }
}

/// A drawable primitive.
#[derive(Clone, Debug)]
#[allow(inconsistent_fields)]
pub enum Render {
    Line2D { start: Vec2, end: Vec2, color: Color },
    Line { start: Vec3, end: Vec3, color: Color },
    LineStrip { positions: Vec<Vec3>, color: Color },
}

/// The mathematical content of a [`Render`].
#[allow(inconsistent_fields)]
pub enum RenderView {
    Line2D { start: Vec2, end: Vec2, color: Color },
    Line { start: Vec3, end: Vec3, color: Color },
    LineStrip { positions: Seq<Vec3>, color: Color },
}

impl View for Render {
    type V = RenderView;

    open spec fn view(&self) -> RenderView {
        match self {
            Render::Line2D { start, end, color } => RenderView::Line2D {
                start: *start,
                end: *end,
                color: *color,
            },
            Render::Line { start, end, color } => RenderView::Line {
                start: *start,
                end: *end,
                color: *color,
            },
            Render::LineStrip { positions, color } => RenderView::LineStrip {
                positions: positions@,
                color: *color,
            },
        }
    }
}

/// Whether a primitive's point count fits its `u16` count field.
pub open spec fn render_encodable(r: RenderView) -> bool {
    match r {
        RenderView::LineStrip { positions, .. } => positions.len() <= u16::MAX,
        _ => true,
    }
}

/// The encoding of a primitive.
pub open spec fn render_bytes(r: RenderView) -> Seq<u8> {
    match r {
        RenderView::Line2D { start, end, color } => seq![0u8] + start.spec_to_bytes()
            + end.spec_to_bytes() + color.spec_to_bytes(),
        RenderView::Line { start, end, color } => seq![1u8] + start.spec_to_bytes()
            + end.spec_to_bytes() + color.spec_to_bytes(),
        RenderView::LineStrip { positions, color } => seq![2u8] + (positions.len() as u16).spec_to_bytes()
            + concat_bytes(positions) + color.spec_to_bytes(),
    }
}

/// What the primitive starting at `at` decodes to, with the number of bytes it takes.
pub open spec fn decode_render(b: Seq<u8>, at: int) -> Result<(RenderView, nat), DecodeError> {
    if at + 1 > b.len() {
        Err(DecodeError::Truncated)
    } else if b[at] == 0 {
        if at + 33 > b.len() {
            Err(DecodeError::Truncated)
        } else {
            Ok(
                (
                    RenderView::Line2D {
                        start: decode_at::<Vec2>(b, at + 1)->Ok_0,
                        end: decode_at::<Vec2>(b, at + 9)->Ok_0,
                        color: decode_at::<Color>(b, at + 17)->Ok_0,
                    },
                    33,
                ),
            )
        }
    } else if b[at] == 1 {
        if at + 41 > b.len() {
            Err(DecodeError::Truncated)
        } else {
            Ok(
                (
                    RenderView::Line {
                        start: decode_at::<Vec3>(b, at + 1)->Ok_0,
                        end: decode_at::<Vec3>(b, at + 13)->Ok_0,
                        color: decode_at::<Color>(b, at + 25)->Ok_0,
                    },
                    41,
                ),
            )
        }
    } else if b[at] == 2 {
        if at + 3 > b.len() {
            Err(DecodeError::Truncated)
        } else {
            let n = decode_at::<u16>(b, at + 1)->Ok_0 as nat;
            if at + 19 + 12 * n > b.len() {
                Err(DecodeError::Truncated)
            } else {
                Ok(
                    (
                        RenderView::LineStrip {
                            positions: decode_seq::<Vec3>(b, at + 3, n)->Ok_0,
                            color: decode_at::<Color>(b, at + 3 + 12 * n)->Ok_0,
                        },
                        19 + 12 * n,
                    ),
                )
            }
        }
    } else {
        Err(DecodeError::InvalidRenderKind)
    }
}

/// A tag byte other than 0, 1 or 2 is refused, whatever follows it.
pub proof fn lemma_unknown_render_tag(b: Seq<u8>, at: int)
    requires
        0 <= at < b.len(),
        b[at] > 2,
    ensures
        decode_render(b, at) == Err::<(RenderView, nat), DecodeError>(DecodeError::InvalidRenderKind),
{
}

/// The encodings of `rs`, one after another.
pub open spec fn renders_bytes(rs: Seq<RenderView>) -> Seq<u8>
    decreases rs.len(),
{
    if rs.len() == 0 {
        Seq::empty()
    } else {
        renders_bytes(rs.drop_last()) + render_bytes(rs.last())
    }
}

/// Decoding `n` consecutive primitives from `at`, with the offset where they end.
pub open spec fn decode_renders(b: Seq<u8>, at: int, n: nat) -> Result<
    (Seq<RenderView>, int),
    DecodeError,
>
    decreases n,
{
    if n == 0 {
        Ok((Seq::empty(), at))
    } else {
        match decode_renders(b, at, (n - 1) as nat) {
            Err(e) => Err(e),
            Ok((s, end)) => match decode_render(b, end) {
                Err(e) => Err(e),
                Ok((r, len)) => Ok((s.push(r), end + len)),
            },
        }
    }
}

/// Any run of bytes decodes as points.
proof fn lemma_points_decode(b: Seq<u8>, at: int, n: nat)
    ensures
        decode_seq::<Vec3>(b, at, n) is Ok,
    decreases n,
{
    if n > 0 {
        lemma_points_decode(b, at, (n - 1) as nat);
    }
}

impl Render {
    /// Decodes the primitive at the reader's position.
    pub fn from_reader(reader: &mut ByteReader) -> (r: Result<Render, DecodeError>)
        requires
            old(reader).wf(),
        ensures
            final(reader).wf(),
            final(reader).data() == old(reader).data(),
            match r {
                Ok(x) => exists|len: nat|
                    {
                        &&& decode_render(old(reader).data(), old(reader).position() as int)
                            == Ok::<(RenderView, nat), DecodeError>((x@, len))
                        &&& final(reader).position() == old(reader).position() + len
                    },
                Err(e) => decode_render(old(reader).data(), old(reader).position() as int)
                    == Err::<(RenderView, nat), DecodeError>(e),
            },
    {
        let ghost b = reader.data();
        let ghost at = reader.position() as int;
        let tag = match reader.read::<u8>() {
            Ok(t) => t,
            Err(e) => return Err(e),
        };
        if tag == 0 {
            if reader.remaining() < 32 {
                return Err(DecodeError::Truncated);
            }
            let start = reader.read::<Vec2>()?;
            let end = reader.read::<Vec2>()?;
            let color = reader.read::<Color>()?;
            let r = Render::Line2D { start, end, color };
            assert(decode_render(b, at) == Ok::<(RenderView, nat), DecodeError>((r@, 33nat)));
            Ok(r)
        } else if tag == 1 {
            if reader.remaining() < 40 {
                return Err(DecodeError::Truncated);
            }
            let start = reader.read::<Vec3>()?;
            let end = reader.read::<Vec3>()?;
            let color = reader.read::<Color>()?;
            let r = Render::Line { start, end, color };
            assert(decode_render(b, at) == Ok::<(RenderView, nat), DecodeError>((r@, 41nat)));
            Ok(r)
        } else if tag == 2 {
            let n = match reader.read::<u16>() {
                Ok(n) => n as usize,
                Err(e) => return Err(e),
            };
            if reader.remaining() < 12 * n + 16 {
                return Err(DecodeError::Truncated);
            }
            proof {
                lemma_points_decode(reader.data(), reader.position() as int, n as nat);
            }
            let positions = reader.read_many::<Vec3>(n)?;
            let color = reader.read::<Color>()?;
            let r = Render::LineStrip { positions, color };
            assert(decode_render(b, at) == Ok::<(RenderView, nat), DecodeError>(
                (r@, (19 + 12 * n) as nat),
            ));
            Ok(r)
        } else {
            Err(DecodeError::InvalidRenderKind)
        }
    }
}

/// The length of a primitive's encoding.
proof fn lemma_render_len(r: RenderView)
    ensures
        render_bytes(r).len() == match r {
            RenderView::Line2D { .. } => 33,
            RenderView::Line { .. } => 41,
            RenderView::LineStrip { positions, .. } => 19 + 12 * positions.len(),
        },
{
    match r {
        RenderView::Line2D { start, end, color } => {
            start.lemma_round_trip();
            end.lemma_round_trip();
            color.lemma_round_trip();
        },
        RenderView::Line { start, end, color } => {
            start.lemma_round_trip();
            end.lemma_round_trip();
            color.lemma_round_trip();
        },
        RenderView::LineStrip { positions, color } => {
            (positions.len() as u16).lemma_round_trip();
            color.lemma_round_trip();
            lemma_concat_len(positions);
        },
    }
}

impl Render {
    /// The length of this primitive's encoding.
    pub fn count_bytes(&self) -> (r: usize)
        requires
            render_encodable(self@),
        ensures
            r == render_bytes(self@).len(),
    {
        proof {
            lemma_render_len(self@);
        }
        match self {
            Render::Line2D { .. } => 33,
            Render::Line { .. } => 41,
            Render::LineStrip { positions, .. } => 19 + 12 * positions.len(),
        }
    }
}

impl ToBytes for Render {
    fn to_bytes(&self) -> (r: Vec<u8>)
        ensures
            r@ == render_bytes(self@),
    {
        let mut w = ByteWriter::new();
        match self {
            Render::Line2D { start, end, color } => {
                w.write(&0u8);
                w.write(start);
                w.write(end);
                w.write(color);
            },
            Render::Line { start, end, color } => {
                w.write(&1u8);
                w.write(start);
                w.write(end);
                w.write(color);
            },
            Render::LineStrip { positions, color } => {
                w.write(&2u8);
                w.write(&(positions.len() as u16));
                w.write_many(positions.as_slice());
                w.write(color);
            },
        }
        proof {
            lemma_empty_concat(seq![0u8]);
            lemma_empty_concat(seq![1u8]);
            lemma_empty_concat(seq![2u8]);
        }
        w.inner()
    }
}

/// Decoding the encoding of a primitive, wherever it sits in a buffer, gives
/// the primitive back together with the length of its encoding.
pub proof fn lemma_render_round_trip(b: Seq<u8>, at: int, r: RenderView)
    requires
        render_encodable(r),
        0 <= at,
        at + render_bytes(r).len() <= b.len(),
        b.subrange(at, at + render_bytes(r).len()) == render_bytes(r),
    ensures
        decode_render(b, at) == Ok::<(RenderView, nat), DecodeError>((r, render_bytes(r).len())),
{
    let enc = render_bytes(r);
    let c = b.subrange(at, at + enc.len());
    lemma_whole(c);
    assert(b[at] == c[0]);
    match r {
        RenderView::Line2D { start, end, color } => {
            start.lemma_round_trip();
            end.lemma_round_trip();
            color.lemma_round_trip();
            let t = seq![0u8];
            lemma_split_prefix(c, t + start.spec_to_bytes() + end.spec_to_bytes(), color.spec_to_bytes());
            lemma_split_prefix(c, t + start.spec_to_bytes(), end.spec_to_bytes());
            lemma_split_prefix(c, t, start.spec_to_bytes());
            assert(b.subrange(at + 1, at + 9) =~= c.subrange(1, 9));
            assert(b.subrange(at + 9, at + 17) =~= c.subrange(9, 17));
            assert(b.subrange(at + 17, at + 33) =~= c.subrange(17, 33));
        },
        RenderView::Line { start, end, color } => {
            start.lemma_round_trip();
            end.lemma_round_trip();
            color.lemma_round_trip();
            let t = seq![1u8];
            lemma_split_prefix(c, t + start.spec_to_bytes() + end.spec_to_bytes(), color.spec_to_bytes());
            lemma_split_prefix(c, t + start.spec_to_bytes(), end.spec_to_bytes());
            lemma_split_prefix(c, t, start.spec_to_bytes());
            assert(b.subrange(at + 1, at + 13) =~= c.subrange(1, 13));
            assert(b.subrange(at + 13, at + 25) =~= c.subrange(13, 25));
            assert(b.subrange(at + 25, at + 41) =~= c.subrange(25, 41));
        },
        RenderView::LineStrip { positions, color } => {
            let n = positions.len() as int;
            let cnt = positions.len() as u16;
            cnt.lemma_round_trip();
            color.lemma_round_trip();
            lemma_concat_len(positions);
            let t = seq![2u8];
            let ps = concat_bytes(positions);
            lemma_split_prefix(c, t + cnt.spec_to_bytes() + ps, color.spec_to_bytes());
            lemma_split_prefix(c, t + cnt.spec_to_bytes(), ps);
            lemma_split_prefix(c, t, cnt.spec_to_bytes());
            assert(b.subrange(at + 1, at + 3) =~= c.subrange(1, 3));
            assert(b.subrange(at + 3, at + 3 + 12 * n) =~= c.subrange(3, 3 + 12 * n));
            assert(b.subrange(at + 3 + 12 * n, at + 19 + 12 * n) =~= c.subrange(
                3 + 12 * n,
                19 + 12 * n,
            ));
            lemma_decode_seq(b, at + 3, positions);
        },
    }
}

/// Once a prefix of the primitives fails to decode, every longer run fails the same way.
proof fn lemma_decode_renders_err(b: Seq<u8>, at: int, i: nat, m: nat)
    requires
        i <= m,
        decode_renders(b, at, i) is Err,
    ensures
        decode_renders(b, at, m) == decode_renders(b, at, i),
    decreases m - i,
{
    if i < m {
        lemma_decode_renders_err(b, at, i, (m - 1) as nat);
    }
}

/// Decoding the concatenated encodings of primitives gives them back, with the
/// offset where they end.
pub proof fn lemma_decode_renders(b: Seq<u8>, at: int, rs: Seq<RenderView>)
    requires
        forall|i: int| 0 <= i < rs.len() ==> render_encodable(#[trigger] rs[i]),
        0 <= at,
        at + renders_bytes(rs).len() <= b.len(),
        b.subrange(at, at + renders_bytes(rs).len()) == renders_bytes(rs),
    ensures
        decode_renders(b, at, rs.len()) == Ok::<(Seq<RenderView>, int), DecodeError>(
            (rs, at + renders_bytes(rs).len()),
        ),
    decreases rs.len(),
{
    if rs.len() == 0 {
        assert(rs =~= Seq::<RenderView>::empty());
    } else {
        let init = rs.drop_last();
        let last = rs.last();
        let li = renders_bytes(init).len() as int;
        let l = renders_bytes(rs).len() as int;
        let c = b.subrange(at, at + l);
        lemma_whole(c);
        lemma_split_prefix(c, renders_bytes(init), render_bytes(last));
        assert(b.subrange(at, at + li) =~= c.subrange(0, li));
        assert(b.subrange(at + li, at + l) =~= c.subrange(li, l));
        assert(forall|i: int| 0 <= i < init.len() ==> init[i] == rs[i]);
        lemma_decode_renders(b, at, init);
        assert(render_encodable(rs[rs.len() - 1]));
        lemma_render_round_trip(b, at + li, last);
        assert(init.push(last) =~= rs);
    }
}

/// A request to add or remove a group of primitives, keyed by an id.
#[derive(Clone, Debug)]
pub enum RenderMessage {
    AddRender(i32, Vec<Render>),
    RemoveRender(i32),
}

/// The mathematical content of a [`RenderMessage`].
pub enum RenderMessageView {
    AddRender(i32, Seq<RenderView>),
    RemoveRender(i32),
}

/// The views of a list of primitives.
pub open spec fn renders_view(rs: Seq<Render>) -> Seq<RenderView> {
    rs.map_values(|r: Render| r@)
}

impl View for RenderMessage {
    type V = RenderMessageView;

    open spec fn view(&self) -> RenderMessageView {
        match self {
            RenderMessage::AddRender(id, renders) => RenderMessageView::AddRender(
                *id,
                renders_view(renders@),
            ),
            RenderMessage::RemoveRender(id) => RenderMessageView::RemoveRender(*id),
        }
    }
}

/// A message's encoding after its length field.
pub open spec fn message_body(v: RenderMessageView) -> Seq<u8> {
    match v {
        RenderMessageView::AddRender(id, rs) => seq![0u8] + id.spec_to_bytes() + (
        rs.len() as u16).spec_to_bytes() + renders_bytes(rs),
        RenderMessageView::RemoveRender(id) => seq![1u8] + id.spec_to_bytes(),
    }
}

/// The encoding of a message: its total length, then its body.
pub open spec fn message_bytes(v: RenderMessageView) -> Seq<u8> {
    ((message_body(v).len() + 4) as u32).spec_to_bytes() + message_body(v)
}

/// Whether every count of a message fits its field.
pub open spec fn message_encodable(v: RenderMessageView) -> bool {
    &&& message_body(v).len() + 4 <= u32::MAX
    &&& match v {
        RenderMessageView::AddRender(_, rs) => {
            &&& rs.len() <= u16::MAX
            &&& forall|i: int| 0 <= i < rs.len() ==> render_encodable(#[trigger] rs[i])
        },
        RenderMessageView::RemoveRender(_) => true,
    }
}

/// What a buffer holding a message decodes to. The length field must equal the
/// number of bytes the message takes; bytes past it are ignored.
pub open spec fn decode_message(b: Seq<u8>) -> Result<RenderMessageView, DecodeError> {
    if b.len() < 5 {
        Err(DecodeError::Truncated)
    } else if b[4] > 1 {
        Err(DecodeError::InvalidMessageKind)
    } else if b.len() < 9 {
        Err(DecodeError::Truncated)
    } else if b[4] == 1 {
        if decode_at::<u32>(b, 0)->Ok_0 != 9 {
            Err(DecodeError::LengthMismatch)
        } else {
            Ok(RenderMessageView::RemoveRender(decode_at::<i32>(b, 5)->Ok_0))
        }
    } else if b.len() < 11 {
        Err(DecodeError::Truncated)
    } else {
        let rs = decode_renders(b, 11, decode_at::<u16>(b, 9)->Ok_0 as nat);
        if rs is Err {
            Err(rs->Err_0)
        } else if decode_at::<u32>(b, 0)->Ok_0 != rs->Ok_0.1 {
            Err(DecodeError::LengthMismatch)
        } else {
            Ok(RenderMessageView::AddRender(decode_at::<i32>(b, 5)->Ok_0, rs->Ok_0.0))
        }
    }
}

impl RenderMessage {
    /// The smallest buffer whose length field can be read.
    pub const MIN_NUM_BYTES: usize = 4;

    /// The total length a message announces in its first bytes.
    pub fn get_num_bytes(bytes: &[u8]) -> (r: usize)
        requires
            bytes@.len() >= 4,
        ensures
            r == decode_at::<u32>(bytes@, 0)->Ok_0,
    {
        match u32::from_exact_bytes(slice_subrange(bytes, 0, 4)) {
            Ok(n) => n as usize,
            Err(_) => 0,
        }
    }
}

impl FromBytes for RenderMessage {
    fn from_bytes(bytes: &[u8]) -> (r: Result<RenderMessage, DecodeError>)
        ensures
            match r {
                Ok(m) => decode_message(bytes@) == Ok::<RenderMessageView, DecodeError>(m@),
                Err(e) => decode_message(bytes@) == Err::<RenderMessageView, DecodeError>(e),
            },
    {
        if bytes.len() < 5 {
            return Err(DecodeError::Truncated);
        }
        if bytes[4] > 1 {
            return Err(DecodeError::InvalidMessageKind);
        }
        if bytes.len() < 9 {
            return Err(DecodeError::Truncated);
        }
        let mut reader = ByteReader::new(bytes);
        let declared = reader.read::<u32>()?;
        let kind = reader.read::<u8>()?;
        let id = reader.read::<i32>()?;
        if kind == 1 {
            if declared != 9 {
                return Err(DecodeError::LengthMismatch);
            }
            return Ok(RenderMessage::RemoveRender(id));
        }
        let n = match reader.read::<u16>() {
            Ok(n) => n,
            Err(e) => return Err(e),
        };
        let ghost b = bytes@;
        let mut renders: Vec<Render> = Vec::new();
        let mut i: u16 = 0;
        proof {
            assert(renders_view(renders@) =~= Seq::<RenderView>::empty());
        }
        while i < n
            invariant
                reader.wf(),
                reader.data() == b,
                b == bytes@,
                b.len() >= 11,
                b[4] == 0,
                n == decode_at::<u16>(b, 9)->Ok_0,
                declared == decode_at::<u32>(b, 0)->Ok_0,
                id == decode_at::<i32>(b, 5)->Ok_0,
                i <= n,
                decode_renders(b, 11, i as nat) == Ok::<(Seq<RenderView>, int), DecodeError>(
                    (renders_view(renders@), reader.position() as int),
                ),
            decreases n - i,
        {
            let r = match Render::from_reader(&mut reader) {
                Ok(r) => r,
                Err(e) => {
                    proof {
                        lemma_decode_renders_err(b, 11, (i + 1) as nat, n as nat);
                    }
                    return Err(e);
                },
            };
            proof {
                assert(renders_view(renders@.push(r)) =~= renders_view(renders@).push(r@));
            }
            renders.push(r);
            i = i + 1;
        }
        if declared as usize != bytes.len() - reader.remaining() {
            return Err(DecodeError::LengthMismatch);
        }
        Ok(RenderMessage::AddRender(id, renders))
    }
}

impl ToBytes for RenderMessage {
    /// A message whose counts do not fit their fields is written with
    /// unspecified counts.
    fn to_bytes(&self) -> (r: Vec<u8>)
        ensures
            message_encodable(self@) ==> r@ == message_bytes(self@),
    {
        let mut body: Vec<u8> = Vec::new();
        match self {
            RenderMessage::AddRender(id, renders) => {
                body.push(0u8);
                let mut id_bytes = id.to_bytes();
                body.append(&mut id_bytes);
                let mut count_bytes = (renders.len() as u16).to_bytes();
                body.append(&mut count_bytes);
                let ghost head = body@;
                let mut i: usize = 0;
                while i < renders.len()
                    invariant
                        i <= renders@.len(),
                        body@ == head + renders_bytes(renders_view(renders@).take(i as int)),
                    decreases renders@.len() - i,
                {
                    let mut encoded = renders[i].to_bytes();
                    proof {
                        let next = renders_view(renders@).take(i + 1);
                        assert(next.drop_last() =~= renders_view(renders@).take(i as int));
                        assert(next.last() == renders[i as int]@);
                        let c = renders_bytes(renders_view(renders@).take(i as int));
                        assert(head + c + encoded@ =~= head + (c + encoded@));
                    }
                    body.append(&mut encoded);
                    i = i + 1;
                }
                proof {
                    assert(renders_view(renders@).take(renders@.len() as int) =~= renders_view(
                        renders@,
                    ));
                    assert(head =~= seq![0u8] + id.spec_to_bytes() + (
                    renders@.len() as u16).spec_to_bytes());
                }
            },
            RenderMessage::RemoveRender(id) => {
                body.push(1u8);
                let mut id_bytes = id.to_bytes();
                body.append(&mut id_bytes);
                proof {
                    assert(body@ =~= seq![1u8] + id.spec_to_bytes());
                }
            },
        }
        let total: u32 = if body.len() <= 0xFFFF_FFFB {
            (body.len() + 4) as u32
        } else {
            u32::MAX
        };
        let mut out = total.to_bytes();
        out.append(&mut body);
        out
    }
}

/// Decoding the encoding of a message gives the message back.
pub proof fn lemma_message_round_trip(v: RenderMessageView)
    requires
        message_encodable(v),
    ensures
        decode_message(message_bytes(v)) == Ok::<RenderMessageView, DecodeError>(v),
{
    let body = message_body(v);
    let total = (body.len() + 4) as u32;
    let b = message_bytes(v);
    total.lemma_round_trip();
    lemma_whole(b);
    lemma_split_prefix(b, total.spec_to_bytes(), body);
    assert(b[4] == body[0]);
    match v {
        RenderMessageView::AddRender(id, rs) => {
            let cnt = rs.len() as u16;
            id.lemma_round_trip();
            cnt.lemma_round_trip();
            let t = seq![0u8];
            let rb = renders_bytes(rs);
            let l = body.len() as int;
            assert(b.subrange(4, 4 + l) =~= body);
            lemma_whole(body);
            lemma_split_prefix(body, t + id.spec_to_bytes() + cnt.spec_to_bytes(), rb);
            lemma_split_prefix(body, t + id.spec_to_bytes(), cnt.spec_to_bytes());
            lemma_split_prefix(body, t, id.spec_to_bytes());
            assert(b.subrange(5, 9) =~= body.subrange(1, 5));
            assert(b.subrange(9, 11) =~= body.subrange(5, 7));
            assert(b.subrange(11, 11 + rb.len() as int) =~= body.subrange(7, 7 + rb.len() as int));
            lemma_decode_renders(b, 11, rs);
        },
        RenderMessageView::RemoveRender(id) => {
            id.lemma_round_trip();
            assert(b.subrange(5, 9) =~= id.spec_to_bytes());
        },
    }
}

} // verus!
