//! Parsing of the text interchange format into a stream of entities.
//!
//! The format is line oriented. Tokens are separated by blanks. The first
//! token of a line names the entity kind: `v` appends a vertex position,
//! `vn` appends a vertex normal, `f` describes a face by corner
//! references, and a line of any other kind is ignored. Keywords are
//! matched case-insensitively. A malformed geometry line (`v`, `vn`, `f`)
//! aborts the parse with a `ParseError` naming the line; parsing never
//! panics.
//!
//! A face corner is `p`, `p/t`, `p//n` or `p/t/n`: a 1-based position
//! index, an optional texture index (read but discarded), and an optional
//! 1-based normal index. A missing normal reference is recorded as index
//! `0`, which no table entry ever has, so resolution later defaults it.

use crate::mesh::Vec3Text;
use crate::mesh::Vec3View;
use crate::numtext::B_CR;
use crate::numtext::B_FF;
use crate::numtext::B_LF;
use crate::numtext::B_LOWER_F;
use crate::numtext::B_LOWER_N;
use crate::numtext::B_LOWER_V;
use crate::numtext::B_SLASH;
use crate::numtext::B_SPACE;
use crate::numtext::B_TAB;
use crate::numtext::B_VT;
use crate::numtext::dec_val;
use crate::numtext::digits_in;
use crate::numtext::is_number;
use crate::numtext::is_number_token;
use crate::numtext::parse_index;
use crate::numtext::all_digits_range;
use crate::numtext::copy_bytes;
use vstd::prelude::*;

verus! {

/// One face corner: a 1-based position index and a normal index, where
/// `0` stands for "no normal reference".
#[derive(Clone, Copy, Debug, PartialEq, Eq, Structural)]
pub struct Corner {
    pub position: u32,
    pub normal: u32,
}

/// One parsed line of the document.
#[derive(Clone, Debug, PartialEq, Eq)]
pub enum LineEntity {
    Position(Vec3Text),
    Normal(Vec3Text),
    Face(Vec<Corner>),
    Ignored,
}

pub ghost enum EntityView {
    Position(Vec3View),
    Normal(Vec3View),
    Face(Seq<Corner>),
    Ignored,
}

impl View for LineEntity {
    type V = EntityView;

    open spec fn view(&self) -> EntityView {
        match self {
            LineEntity::Position(p) => EntityView::Position(p@),
            LineEntity::Normal(n) => EntityView::Normal(n@),
            LineEntity::Face(cs) => EntityView::Face(cs@),
            LineEntity::Ignored => EntityView::Ignored,
        }
    }
}

/// Which kind of geometry line was malformed.
#[derive(Clone, Copy, Debug, PartialEq, Eq, Structural)]
pub enum ParseErrorKind {
    MalformedPosition,
    MalformedNormal,
    MalformedFace,
}

/// A parse failure, naming the malformed line (1-based) and its kind.
#[derive(Clone, Copy, Debug, PartialEq, Eq, Structural)]
pub struct ParseError {
    pub line: usize,
    pub kind: ParseErrorKind,
}

/// Blank bytes that separate tokens within a line. A carriage return is
/// a blank, so lines ended by CRLF need no separate trimming.
pub open spec fn is_space(b: u8) -> bool {
    b == B_TAB || b == B_VT || b == B_FF || b == B_CR || b == B_SPACE
}

/// The document split at line feeds, as an accumulator recursion:
/// `cur` is the line being collected, `out` the lines already complete.
pub open spec fn spec_lines_from(t: Seq<u8>, i: int, cur: Seq<u8>, out: Seq<Seq<u8>>) -> Seq<
    Seq<u8>,
>
    decreases t.len() - i,
{
    if i < 0 || i >= t.len() {
        out.push(cur)
    } else if t[i] == B_LF {
        spec_lines_from(t, i + 1, seq![], out.push(cur))
    } else {
        spec_lines_from(t, i + 1, cur.push(t[i]), out)
    }
}

pub open spec fn spec_lines(t: Seq<u8>) -> Seq<Seq<u8>> {
    spec_lines_from(t, 0, seq![], seq![])
}

/// Splits the document at line feeds. The empty document is one empty
/// line; a trailing line feed contributes a final empty line.
pub fn split_lines(text: &Vec<u8>) -> (lines: Vec<Vec<u8>>)
    ensures
        lines@.map_values(|l: Vec<u8>| l@) == spec_lines(text@),
{
    let n = text.len();
    let mut out: Vec<Vec<u8>> = Vec::new();
    let mut cur: Vec<u8> = Vec::new();
    let mut i: usize = 0;
    proof {
        assert(out@.map_values(|l: Vec<u8>| l@) =~= Seq::<Seq<u8>>::empty());
    }
    while i < n
        invariant
            0 <= i <= n,
            n == text@.len(),
            spec_lines_from(text@, i as int, cur@, out@.map_values(|l: Vec<u8>| l@))
                == spec_lines(text@),
        decreases n - i,
    {
        let ghost old_out = out@.map_values(|l: Vec<u8>| l@);
        let b = text[i];
        if b == B_LF {
            out.push(cur);
            cur = Vec::new();
            proof {
                assert(out@.map_values(|l: Vec<u8>| l@) =~= old_out.push(
                    out@[out@.len() - 1]@,
                ));
                assert(cur@ =~= Seq::<u8>::empty());
            }
        } else {
            cur.push(b);
        }
        i = i + 1;
    }
    let ghost old_out = out@.map_values(|l: Vec<u8>| l@);
    out.push(cur);
    proof {
        assert(out@.map_values(|l: Vec<u8>| l@) =~= old_out.push(out@[out@.len() - 1]@));
    }
    out
}

/// The line split into blank-separated tokens, accumulator style; empty
/// tokens are never produced.
pub open spec fn spec_tokens_from(l: Seq<u8>, i: int, cur: Seq<u8>, out: Seq<Seq<u8>>) -> Seq<
    Seq<u8>,
>
    decreases l.len() - i,
{
    if i < 0 || i >= l.len() {
        if cur.len() == 0 {
            out
        } else {
            out.push(cur)
        }
    } else if is_space(l[i]) {
        spec_tokens_from(
            l,
            i + 1,
            seq![],
            if cur.len() == 0 {
                out
            } else {
                out.push(cur)
            },
        )
    } else {
        spec_tokens_from(l, i + 1, cur.push(l[i]), out)
    }
}

pub open spec fn spec_tokens(l: Seq<u8>) -> Seq<Seq<u8>> {
    spec_tokens_from(l, 0, seq![], seq![])
}

/// Splits a line into its blank-separated tokens.
pub fn split_tokens(line: &Vec<u8>) -> (toks: Vec<Vec<u8>>)
    ensures
        toks@.map_values(|t: Vec<u8>| t@) == spec_tokens(line@),
{
    let n = line.len();
    let mut out: Vec<Vec<u8>> = Vec::new();
    let mut cur: Vec<u8> = Vec::new();
    let mut i: usize = 0;
    proof {
        assert(out@.map_values(|t: Vec<u8>| t@) =~= Seq::<Seq<u8>>::empty());
    }
    while i < n
        invariant
            0 <= i <= n,
            n == line@.len(),
            spec_tokens_from(line@, i as int, cur@, out@.map_values(|t: Vec<u8>| t@))
                == spec_tokens(line@),
        decreases n - i,
    {
        let ghost old_out = out@.map_values(|t: Vec<u8>| t@);
        let b = line[i];
        if b == B_TAB || b == B_VT || b == B_FF || b == B_CR || b == B_SPACE {
            if cur.len() > 0 {
                out.push(cur);
                cur = Vec::new();
                proof {
                    assert(out@.map_values(|t: Vec<u8>| t@) =~= old_out.push(
                        out@[out@.len() - 1]@,
                    ));
                    assert(cur@ =~= Seq::<u8>::empty());
                }
            } else {
                proof {
                    assert(cur@ =~= Seq::<u8>::empty());
                }
            }
        } else {
            cur.push(b);
        }
        i = i + 1;
    }
    if cur.len() > 0 {
        let ghost old_out = out@.map_values(|t: Vec<u8>| t@);
        out.push(cur);
        proof {
            assert(out@.map_values(|t: Vec<u8>| t@) =~= old_out.push(out@[out@.len() - 1]@));
        }
    }
    out
}

/// A corner token split at slashes, keeping empty fields.
pub open spec fn spec_fields_from(c: Seq<u8>, i: int, cur: Seq<u8>, out: Seq<Seq<u8>>) -> Seq<
    Seq<u8>,
>
    decreases c.len() - i,
{
    if i < 0 || i >= c.len() {
        out.push(cur)
    } else if c[i] == B_SLASH {
        spec_fields_from(c, i + 1, seq![], out.push(cur))
    } else {
        spec_fields_from(c, i + 1, cur.push(c[i]), out)
    }
}

pub open spec fn spec_fields(c: Seq<u8>) -> Seq<Seq<u8>> {
    spec_fields_from(c, 0, seq![], seq![])
}

/// Splits a corner token at slashes, keeping empty fields.
pub fn split_fields(tok: &Vec<u8>) -> (fields: Vec<Vec<u8>>)
    ensures
        fields@.map_values(|f: Vec<u8>| f@) == spec_fields(tok@),
        fields@.len() >= 1,
{
    let n = tok.len();
    let mut out: Vec<Vec<u8>> = Vec::new();
    let mut cur: Vec<u8> = Vec::new();
    let mut i: usize = 0;
    proof {
        assert(out@.map_values(|f: Vec<u8>| f@) =~= Seq::<Seq<u8>>::empty());
    }
    while i < n
        invariant
            0 <= i <= n,
            n == tok@.len(),
            spec_fields_from(tok@, i as int, cur@, out@.map_values(|f: Vec<u8>| f@))
                == spec_fields(tok@),
        decreases n - i,
    {
        let ghost old_out = out@.map_values(|f: Vec<u8>| f@);
        let b = tok[i];
        if b == B_SLASH {
            out.push(cur);
            cur = Vec::new();
            proof {
                assert(out@.map_values(|f: Vec<u8>| f@) =~= old_out.push(
                    out@[out@.len() - 1]@,
                ));
                assert(cur@ =~= Seq::<u8>::empty());
            }
        } else {
            cur.push(b);
        }
        i = i + 1;
    }
    let ghost old_out = out@.map_values(|f: Vec<u8>| f@);
    out.push(cur);
    proof {
        assert(out@.map_values(|f: Vec<u8>| f@) =~= old_out.push(out@[out@.len() - 1]@));
    }
    out
}

/// A nonempty all-digit field whose value fits a `u32`.
pub open spec fn is_index_field(f: Seq<u8>) -> bool {
    f.len() > 0 && digits_in(f, 0, f.len() as int) && dec_val(f) <= u32::MAX
}

/// The corner a token describes, if it is well formed: a 1-based position
/// index, an optional all-digit texture field (discarded), an optional
/// normal index (`0` when missing or empty). Fields past the third are
/// ignored.
pub open spec fn spec_corner(c: Seq<u8>) -> Option<Corner> {
    let fs = spec_fields(c);
    if fs.len() == 0 {
        None
    } else if !(is_index_field(fs[0]) && dec_val(fs[0]) >= 1) {
        None
    } else if fs.len() >= 2 && fs[1].len() > 0 && !digits_in(fs[1], 0, fs[1].len() as int) {
        None
    } else if fs.len() >= 3 && fs[2].len() > 0 && !is_index_field(fs[2]) {
        None
    } else {
        Some(
            Corner {
                position: dec_val(fs[0]) as u32,
                normal: if fs.len() >= 3 && fs[2].len() > 0 {
                    dec_val(fs[2]) as u32
                } else {
                    0
                },
            },
        )
    }
}

/// Parses one face-corner token.
pub fn parse_corner(tok: &Vec<u8>) -> (r: Option<Corner>)
    ensures
        r == spec_corner(tok@),
{
    let fields = split_fields(tok);
    let ghost fs = spec_fields(tok@);
    proof {
        assert(fields@.map_values(|f: Vec<u8>| f@).len() == fs.len());
        assert(forall|k: int|
            0 <= k < fields@.len() ==> #[trigger] fields@[k]@ == fs[k]);
    }
    let position: u32;
    match parse_index(&fields[0]) {
        Some(v) => {
            if v == 0 {
                return None;
            }
            position = v;
        },
        None => {
            return None;
        },
    }
    if fields.len() >= 2 {
        let f1 = &fields[1];
        let f1n = f1.len();
        if f1n > 0 && !all_digits_range(f1, 0, f1n) {
            return None;
        }
    }
    let mut normal: u32 = 0;
    if fields.len() >= 3 {
        let f2 = &fields[2];
        if f2.len() > 0 {
            match parse_index(f2) {
                Some(nv) => {
                    normal = nv;
                },
                None => {
                    return None;
                },
            }
        }
    }
    Some(Corner { position, normal })
}

/// ASCII lowercase of one byte.
pub open spec fn lower(b: u8) -> u8 {
    if 65 <= b <= 90 {
        (b + 32) as u8
    } else {
        b
    }
}

pub fn lower_byte(b: u8) -> (r: u8)
    ensures
        r == lower(b),
{
    if b >= 65 && b <= 90 {
        b + 32
    } else {
        b
    }
}

/// The keyword token, lowercased, is `v`.
pub open spec fn kw_is_position(t: Seq<u8>) -> bool {
    t.len() == 1 && lower(t[0]) == B_LOWER_V
}

/// The keyword token, lowercased, is `vn`.
pub open spec fn kw_is_normal(t: Seq<u8>) -> bool {
    t.len() == 2 && lower(t[0]) == B_LOWER_V && lower(t[1]) == B_LOWER_N
}

/// The keyword token, lowercased, is `f`.
pub open spec fn kw_is_face(t: Seq<u8>) -> bool {
    t.len() == 1 && lower(t[0]) == B_LOWER_F
}

/// What one line means. A blank line and a line of any entity kind other
/// than `v`, `vn`, `f` are ignored. A position line needs three numeric
/// coordinates and an optional numeric weight; further tokens are
/// ignored. A normal line needs three numeric coordinates; further
/// tokens are ignored. A face line needs every corner token well formed;
/// corner count is unconstrained here (fewer than three corners emit no
/// triangle later).
pub open spec fn spec_classify(l: Seq<u8>) -> Result<EntityView, ParseErrorKind> {
    let toks = spec_tokens(l);
    if toks.len() == 0 {
        Ok(EntityView::Ignored)
    } else if kw_is_position(toks[0]) {
        if toks.len() >= 4 && is_number(toks[1]) && is_number(toks[2]) && is_number(toks[3]) && (
        toks.len() == 4 || is_number(toks[4])) {
            Ok(EntityView::Position(Vec3View { x: toks[1], y: toks[2], z: toks[3] }))
        } else {
            Err(ParseErrorKind::MalformedPosition)
        }
    } else if kw_is_normal(toks[0]) {
        if toks.len() >= 4 && is_number(toks[1]) && is_number(toks[2]) && is_number(toks[3]) {
            Ok(EntityView::Normal(Vec3View { x: toks[1], y: toks[2], z: toks[3] }))
        } else {
            Err(ParseErrorKind::MalformedNormal)
        }
    } else if kw_is_face(toks[0]) {
        if forall|j: int| 1 <= j < toks.len() ==> #[trigger] spec_corner(toks[j]) is Some {
            Ok(
                EntityView::Face(
                    Seq::new((toks.len() - 1) as nat, |j: int| spec_corner(toks[j + 1]).unwrap()),
                ),
            )
        } else {
            Err(ParseErrorKind::MalformedFace)
        }
    } else {
        Ok(EntityView::Ignored)
    }
}

/// Parses one line into its entity.
pub fn classify_line(line: &Vec<u8>) -> (r: Result<LineEntity, ParseErrorKind>)
    ensures
        match r {
            Ok(e) => spec_classify(line@) is Ok && e@ == spec_classify(line@)->Ok_0,
            Err(k) => spec_classify(line@) is Err && k == spec_classify(line@)->Err_0,
        },
{
    let toks = split_tokens(line);
    let ghost st = spec_tokens(line@);
    proof {
        assert(toks@.map_values(|t: Vec<u8>| t@).len() == st.len());
        assert(forall|k: int| 0 <= k < toks@.len() ==> #[trigger] toks@[k]@ == st[k]);
    }
    let m = toks.len();
    if m == 0 {
        return Ok(LineEntity::Ignored);
    }
    let t0 = &toks[0];
    let n0 = t0.len();
    let is_v = n0 == 1 && lower_byte(t0[0]) == B_LOWER_V;
    let is_vn = n0 == 2 && lower_byte(t0[0]) == B_LOWER_V && lower_byte(t0[1]) == B_LOWER_N;
    let is_f = n0 == 1 && lower_byte(t0[0]) == B_LOWER_F;

    if is_v {
        if m >= 4 && is_number_token(&toks[1]) && is_number_token(&toks[2]) && is_number_token(
            &toks[3],
        ) && (m == 4 || is_number_token(&toks[4])) {
            Ok(
                LineEntity::Position(
                    Vec3Text {
                        x: copy_bytes(&toks[1]),
                        y: copy_bytes(&toks[2]),
                        z: copy_bytes(&toks[3]),
                    },
                ),
            )
        } else {
            Err(ParseErrorKind::MalformedPosition)
        }
    } else if is_vn {
        if m >= 4 && is_number_token(&toks[1]) && is_number_token(&toks[2]) && is_number_token(
            &toks[3],
        ) {
            Ok(
                LineEntity::Normal(
                    Vec3Text {
                        x: copy_bytes(&toks[1]),
                        y: copy_bytes(&toks[2]),
                        z: copy_bytes(&toks[3]),
                    },
                ),
            )
        } else {
            Err(ParseErrorKind::MalformedNormal)
        }
    } else if is_f {
        proof {
            assert(toks@[0]@ == st[0]);
            assert(!kw_is_position(st[0]));
            assert(!kw_is_normal(st[0]));
            assert(kw_is_face(st[0]));
        }
        let mut corners: Vec<Corner> = Vec::new();
        let mut j: usize = 1;
        while j < m
            invariant
                1 <= j <= m,
                m == toks@.len(),
                st.len() == m,
                st == spec_tokens(line@),
                !kw_is_position(st[0]),
                !kw_is_normal(st[0]),
                kw_is_face(st[0]),
                forall|k: int| 0 <= k < toks@.len() ==> #[trigger] toks@[k]@ == st[k],
                forall|k: int| 1 <= k < j ==> #[trigger] spec_corner(st[k]) is Some,
                corners@ =~= Seq::new((j - 1) as nat, |k: int| spec_corner(st[k + 1]).unwrap()),
            decreases m - j,
        {
            match parse_corner(&toks[j]) {
                Some(c) => {
                    corners.push(c);
                    proof {
                        assert(corners@ =~= Seq::new(
                            j as nat,
                            |k: int| spec_corner(st[k + 1]).unwrap(),
                        ));
                    }
                },
                None => {
                    proof {
                        assert(spec_corner(st[j as int]) is None);
                        assert(!(forall|k: int|
                            1 <= k < st.len() ==> #[trigger] spec_corner(st[k]) is Some));
                    }
                    return Err(ParseErrorKind::MalformedFace);
                },
            }
            j = j + 1;
        }
        proof {
            assert(corners@ =~= Seq::new(
                (st.len() - 1) as nat,
                |k: int| spec_corner(st[k + 1]).unwrap(),
            ));
        }
        Ok(LineEntity::Face(corners))
    } else {
        Ok(LineEntity::Ignored)
    }
}

/// The entities of all lines from `i` on, or the first malformed line
/// (1-based) and its kind.
pub open spec fn spec_doc_from(lines: Seq<Seq<u8>>, i: int, out: Seq<EntityView>) -> Result<
    Seq<EntityView>,
    (int, ParseErrorKind),
>
    decreases lines.len() - i,
{
    if i < 0 || i >= lines.len() {
        Ok(out)
    } else {
        match spec_classify(lines[i]) {
            Ok(e) => spec_doc_from(lines, i + 1, out.push(e)),
            Err(k) => Err((i + 1, k)),
        }
    }
}

/// The entity stream of the whole document, or its first parse failure.
pub open spec fn spec_doc(t: Seq<u8>) -> Result<Seq<EntityView>, (int, ParseErrorKind)> {
    spec_doc_from(spec_lines(t), 0, seq![])
}

/// A corner that the parser can emit: its position index is 1-based.
pub open spec fn corner_wf(c: Corner) -> bool {
    c.position >= 1
}

pub open spec fn entity_wf(e: EntityView) -> bool {
    match e {
        EntityView::Face(cs) => forall|j: int| 0 <= j < cs.len() ==> corner_wf(#[trigger] cs[j]),
        _ => true,
    }
}

pub open spec fn entities_wf(es: Seq<EntityView>) -> bool {
    forall|i: int| 0 <= i < es.len() ==> entity_wf(#[trigger] es[i])
}

pub proof fn lemma_classify_wf(l: Seq<u8>)
    ensures
        spec_classify(l) is Ok ==> entity_wf(spec_classify(l)->Ok_0),
{
    if spec_classify(l) is Ok {
        match spec_classify(l)->Ok_0 {
            EntityView::Face(cs) => {
                assert forall|j: int| 0 <= j < cs.len() implies corner_wf(#[trigger] cs[j]) by {
                    let toks = spec_tokens(l);
                    assert(cs[j] == spec_corner(toks[j + 1]).unwrap());
                }
            },
            _ => {},
        }
    }
}

pub proof fn lemma_doc_from_wf(lines: Seq<Seq<u8>>, i: int, out: Seq<EntityView>)
    requires
        entities_wf(out),
    ensures
        spec_doc_from(lines, i, out) is Ok ==> entities_wf(spec_doc_from(lines, i, out)->Ok_0),
    decreases lines.len() - i,
{
    if 0 <= i < lines.len() {
        match spec_classify(lines[i]) {
            Ok(e) => {
                lemma_classify_wf(lines[i]);
                assert(entities_wf(out.push(e)));
                lemma_doc_from_wf(lines, i + 1, out.push(e));
            },
            Err(_) => {},
        }
    }
}

/// Every entity stream the parser emits has well-formed face corners.
pub proof fn lemma_doc_wf(t: Seq<u8>)
    ensures
        spec_doc(t) is Ok ==> entities_wf(spec_doc(t)->Ok_0),
{
    assert(entities_wf(seq![]));
    lemma_doc_from_wf(spec_lines(t), 0, seq![]);
}

/// Parses the whole document into its entity stream, or reports the
/// first malformed geometry line.
pub fn parse_document(text: &Vec<u8>) -> (r: Result<Vec<LineEntity>, ParseError>)
    ensures
        match r {
            Ok(es) => {
                &&& spec_doc(text@) is Ok
                &&& es@.map_values(|e: LineEntity| e@) == spec_doc(text@)->Ok_0
                &&& entities_wf(es@.map_values(|e: LineEntity| e@))
            },
            Err(pe) => {
                &&& spec_doc(text@) is Err
                &&& pe.line as int == spec_doc(text@)->Err_0.0
                &&& pe.kind == spec_doc(text@)->Err_0.1
            },
        },
{
    let lines = split_lines(text);
    let n = lines.len();
    let ghost lv = spec_lines(text@);
    let mut out: Vec<LineEntity> = Vec::new();
    let mut i: usize = 0;
    proof {
        assert(out@.map_values(|e: LineEntity| e@) =~= Seq::<EntityView>::empty());
        assert(forall|k: int| 0 <= k < lines@.len() ==> #[trigger] lines@[k]@ == lv[k]);
    }
    while i < n
        invariant
            0 <= i <= n,
            n == lines@.len(),
            lv == spec_lines(text@),
            lines@.map_values(|l: Vec<u8>| l@) == lv,
            forall|k: int| 0 <= k < lines@.len() ==> #[trigger] lines@[k]@ == lv[k],
            spec_doc_from(lv, i as int, out@.map_values(|e: LineEntity| e@)) == spec_doc(text@),
        decreases n - i,
    {
        let ghost old_map = out@.map_values(|e: LineEntity| e@);
        match classify_line(&lines[i]) {
            Ok(e) => {
                out.push(e);
                proof {
                    assert(out@.map_values(|e: LineEntity| e@) =~= old_map.push(
                        out@[out@.len() - 1]@,
                    ));
                }
            },
            Err(k) => {
                return Err(ParseError { line: i + 1, kind: k });
            },
        }
        i = i + 1;
    }
    proof {
        lemma_doc_wf(text@);
    }
    Ok(out)
}

} // verus!
