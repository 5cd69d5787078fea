use vstd::prelude::*;
use vstd::string::*;

verus! {

/// Number of selectable demos; they sit at indices `1..=DEMO_COUNT`.
pub const DEMO_COUNT: usize = 21;

/// The selectable demo routines, plus a sentinel for an index that names none.
#[derive(Debug, Clone, Copy, PartialEq, Eq, Structural)]
pub enum DrawFunc {
    DrawVbo,
    DrawVbo2,
    DrawVboVertexColor,
    DrawVboVertexColor2,
    DrawVaoVertexColor,
    DrawVaoVertexColor2,
    DrawVaoVertexColorElement2,
    DrawCircle,
    DrawComplex,
    DrawWithoutVbo,
    DrawLines,
    DrawPrimitiveRestart,
    DrawProvokingVertex,
    DrawInstance,
    DrawInstance2,
    DrawTriangleStrip,
    DrawModelViewProjection,
    DrawTexture,
    DrawTextureCubeMap,
    DrawTexture3,
    DrawTextureMipMapping,
    InvalidDrawFunc,
}

/// The table index of each demo; the sentinel takes the first index past the table.
pub open spec fn demo_index(f: DrawFunc) -> nat {
    match f {
        DrawFunc::DrawVbo => 1,
        DrawFunc::DrawVbo2 => 2,
        DrawFunc::DrawVboVertexColor => 3,
        DrawFunc::DrawVboVertexColor2 => 4,
        DrawFunc::DrawVaoVertexColor => 5,
        DrawFunc::DrawVaoVertexColor2 => 6,
        DrawFunc::DrawVaoVertexColorElement2 => 7,
        DrawFunc::DrawCircle => 8,
        DrawFunc::DrawComplex => 9,
        DrawFunc::DrawWithoutVbo => 10,
        DrawFunc::DrawLines => 11,
        DrawFunc::DrawPrimitiveRestart => 12,
        DrawFunc::DrawProvokingVertex => 13,
        DrawFunc::DrawInstance => 14,
        DrawFunc::DrawInstance2 => 15,
        DrawFunc::DrawTriangleStrip => 16,
        DrawFunc::DrawModelViewProjection => 17,
        DrawFunc::DrawTexture => 18,
        DrawFunc::DrawTextureCubeMap => 19,
        DrawFunc::DrawTexture3 => 20,
        DrawFunc::DrawTextureMipMapping => 21,
        DrawFunc::InvalidDrawFunc => 22,
    }
}

/// The demo selected by a table index: the one whose index it is, else the sentinel.
pub open spec fn demo_at(i: int) -> DrawFunc {
    if i == 1 {
        DrawFunc::DrawVbo
    } else if i == 2 {
        DrawFunc::DrawVbo2
    } else if i == 3 {
        DrawFunc::DrawVboVertexColor
    } else if i == 4 {
        DrawFunc::DrawVboVertexColor2
    } else if i == 5 {
        DrawFunc::DrawVaoVertexColor
    } else if i == 6 {
        DrawFunc::DrawVaoVertexColor2
    } else if i == 7 {
        DrawFunc::DrawVaoVertexColorElement2
    } else if i == 8 {
        DrawFunc::DrawCircle
    } else if i == 9 {
        DrawFunc::DrawComplex
    } else if i == 10 {
        DrawFunc::DrawWithoutVbo
    } else if i == 11 {
        DrawFunc::DrawLines
    } else if i == 12 {
        DrawFunc::DrawPrimitiveRestart
    } else if i == 13 {
        DrawFunc::DrawProvokingVertex
    } else if i == 14 {
        DrawFunc::DrawInstance
    } else if i == 15 {
        DrawFunc::DrawInstance2
    } else if i == 16 {
        DrawFunc::DrawTriangleStrip
    } else if i == 17 {
        DrawFunc::DrawModelViewProjection
    } else if i == 18 {
        DrawFunc::DrawTexture
    } else if i == 19 {
        DrawFunc::DrawTextureCubeMap
    } else if i == 20 {
        DrawFunc::DrawTexture3
    } else if i == 21 {
        DrawFunc::DrawTextureMipMapping
    } else {
        DrawFunc::InvalidDrawFunc
    }
}

/// The name of each demo, as listed to the user.
pub open spec fn demo_name(f: DrawFunc) -> Seq<char> {
    match f {
        DrawFunc::DrawVbo => "DrawVbo"@,
        DrawFunc::DrawVbo2 => "DrawVbo2"@,
        DrawFunc::DrawVboVertexColor => "DrawVboVertexColor"@,
        DrawFunc::DrawVboVertexColor2 => "DrawVboVertexColor2"@,
        DrawFunc::DrawVaoVertexColor => "DrawVaoVertexColor"@,
        DrawFunc::DrawVaoVertexColor2 => "DrawVaoVertexColor2"@,
        DrawFunc::DrawVaoVertexColorElement2 => "DrawVaoVertexColorElement2"@,
        DrawFunc::DrawCircle => "DrawCircle"@,
        DrawFunc::DrawComplex => "DrawComplex"@,
        DrawFunc::DrawWithoutVbo => "DrawWithoutVbo"@,
        DrawFunc::DrawLines => "DrawLines"@,
        DrawFunc::DrawPrimitiveRestart => "DrawPrimitiveRestart"@,
        DrawFunc::DrawProvokingVertex => "DrawProvokingVertex"@,
        DrawFunc::DrawInstance => "DrawInstance"@,
        DrawFunc::DrawInstance2 => "DrawInstance2"@,
        DrawFunc::DrawTriangleStrip => "DrawTriangleStrip"@,
        DrawFunc::DrawModelViewProjection => "DrawModelViewProjection"@,
        DrawFunc::DrawTexture => "DrawTexture"@,
        DrawFunc::DrawTextureCubeMap => "DrawTextureCubeMap"@,
        DrawFunc::DrawTexture3 => "DrawTexture3"@,
        DrawFunc::DrawTextureMipMapping => "DrawTextureMipMapping"@,
        DrawFunc::InvalidDrawFunc => "InvalidDrawFunc"@,
    }
}

/// The character of a decimal digit.
pub open spec fn digit_char(d: nat) -> char {
    seq!['0', '1', '2', '3', '4', '5', '6', '7', '8', '9'][d as int]
}

/// Decimal notation of a natural number, without leading zeros.
pub open spec fn decimal(n: nat) -> Seq<char>
    decreases n,
{
    if n < 10 {
        seq![digit_char(n)]
    } else {
        decimal(n / 10) + seq![digit_char(n % 10)]
    }
}

/// `s` right-aligned in a field of `width` characters, padded with spaces.
pub open spec fn right_aligned(s: Seq<char>, width: nat) -> Seq<char> {
    if s.len() < width {
        Seq::new((width - s.len()) as nat, |i: int| ' ') + s
    } else {
        s
    }
}

/// The line that names a demo in a listing: its index, a separator and its name.
pub open spec fn demo_label(f: DrawFunc) -> Seq<char> {
    let n = decimal(demo_index(f));
    match f {
        DrawFunc::DrawVbo => right_aligned(n, 3) + "_"@ + demo_name(f),
        DrawFunc::DrawVbo2 => right_aligned(n, 3) + "_"@ + demo_name(f),
        DrawFunc::DrawVaoVertexColorElement2 => n + ", "@ + demo_name(f),
        _ => n + "_"@ + demo_name(f),
    }
}

/// Looking a demo up by its index gives that demo back, for every demo and the sentinel;
/// and an index inside the table is the index of the demo found there.
pub proof fn lemma_index_table_round_trip(f: DrawFunc, i: int)
    ensures
        demo_at(demo_index(f) as int) == f,
        1 <= i <= DEMO_COUNT ==> demo_index(demo_at(i)) == i,
        1 <= i <= DEMO_COUNT ==> demo_at(i) != DrawFunc::InvalidDrawFunc,
        !(1 <= i <= DEMO_COUNT) ==> demo_at(i) == DrawFunc::InvalidDrawFunc,
{
}

/// Value of a decimal digit character.
pub open spec fn digit_value(c: char) -> int {
    (c as u32) as int - ('0' as u32) as int
}

/// The table index that a listing line starts with: one digit after two spaces, two
/// digits, or one digit followed by its separator.
pub open spec fn label_index(s: Seq<char>) -> int {
    if s[0] == ' ' {
        digit_value(s[2])
    } else if '0' <= s[1] <= '9' {
        10 * digit_value(s[0]) + digit_value(s[1])
    } else {
        digit_value(s[0])
    }
}

proof fn lemma_label_index(f: DrawFunc)
    ensures
        label_index(demo_label(f)) == demo_index(f),
        demo_label(f).len() >= demo_name(f).len(),
        demo_label(f).subrange(
            demo_label(f).len() - demo_name(f).len(),
            demo_label(f).len() as int,
        ) == demo_name(f),
{
    reveal_strlit("_");
    reveal_strlit(", ");
    reveal_with_fuel(decimal, 3);
    let n = decimal(demo_index(f));
    let l = demo_label(f);
    let name = demo_name(f);
    assert(l.subrange(l.len() - name.len(), l.len() as int) =~= name);
    if demo_index(f) < 10 {
        assert(n =~= seq![digit_char(demo_index(f))]);
    } else {
        assert(n =~= seq![digit_char(demo_index(f) / 10), digit_char(demo_index(f) % 10)]);
    }
}

/// Each line of the demo listing starts with its demo's table index and ends with its
/// name, so no two demos share a line.
pub proof fn lemma_labels_identify_demos(f: DrawFunc, g: DrawFunc)
    ensures
        label_index(demo_label(f)) == demo_index(f),
        demo_label(f).len() >= demo_name(f).len(),
        demo_label(f).subrange(
            demo_label(f).len() - demo_name(f).len(),
            demo_label(f).len() as int,
        ) == demo_name(f),
        demo_label(f) == demo_label(g) ==> f == g,
{
    lemma_label_index(f);
    lemma_label_index(g);
    lemma_index_table_round_trip(f, 0);
    lemma_index_table_round_trip(g, 0);
}

fn digit_text(d: usize) -> (r: &'static str)
    requires
        d < 10,
    ensures
        r@ == seq![digit_char(d as nat)],
{
    proof {
        reveal_strlit("0");
        reveal_strlit("1");
        reveal_strlit("2");
        reveal_strlit("3");
        reveal_strlit("4");
        reveal_strlit("5");
        reveal_strlit("6");
        reveal_strlit("7");
        reveal_strlit("8");
        reveal_strlit("9");
    }
    match d {
        0 => "0",
        1 => "1",
        2 => "2",
        3 => "3",
        4 => "4",
        5 => "5",
        6 => "6",
        7 => "7",
        8 => "8",
        _ => "9",
    }
}

/// Decimal text of `n`.
pub fn decimal_text(n: usize) -> (r: String)
    ensures
        r@ == decimal(n as nat),
    decreases n,
{
    if n < 10 {
        String::from_str(digit_text(n))
    } else {
        let mut s = decimal_text(n / 10);
        s.append(digit_text(n % 10));
        s
    }
}

/// `s` right-aligned in a field of `width` characters.
pub fn right_aligned_text(s: &str, width: usize) -> (r: String)
    ensures
        r@ == right_aligned(s@, width as nat),
{
    let len = s.unicode_len();
    let mut r = String::from_str("");
    proof {
        reveal_strlit("");
        reveal_strlit(" ");
    }
    if len < width {
        let pad = width - len;
        let mut k: usize = 0;
        while k < pad
            invariant
                k <= pad,
                r@ == Seq::new(k as nat, |i: int| ' '),
            decreases pad - k,
        {
            proof {
                reveal_strlit(" ");
            }
            r.append(" ");
            k = k + 1;
            assert(r@ =~= Seq::new(k as nat, |i: int| ' '));
        }
        assert(r@ =~= Seq::new((width - s@.len()) as nat, |i: int| ' '));
    }
    r.append(s);
    r
}

impl DrawFunc {
    /// Table index of this demo; the sentinel's is `DEMO_COUNT + 1`.
    pub fn index(&self) -> (r: usize)
        ensures
            r == demo_index(*self),
    {
        match self {
            DrawFunc::DrawVbo => 1,
            DrawFunc::DrawVbo2 => 2,
            DrawFunc::DrawVboVertexColor => 3,
            DrawFunc::DrawVboVertexColor2 => 4,
            DrawFunc::DrawVaoVertexColor => 5,
            DrawFunc::DrawVaoVertexColor2 => 6,
            DrawFunc::DrawVaoVertexColorElement2 => 7,
            DrawFunc::DrawCircle => 8,
            DrawFunc::DrawComplex => 9,
            DrawFunc::DrawWithoutVbo => 10,
            DrawFunc::DrawLines => 11,
            DrawFunc::DrawPrimitiveRestart => 12,
            DrawFunc::DrawProvokingVertex => 13,
            DrawFunc::DrawInstance => 14,
            DrawFunc::DrawInstance2 => 15,
            DrawFunc::DrawTriangleStrip => 16,
            DrawFunc::DrawModelViewProjection => 17,
            DrawFunc::DrawTexture => 18,
            DrawFunc::DrawTextureCubeMap => 19,
            DrawFunc::DrawTexture3 => 20,
            DrawFunc::DrawTextureMipMapping => 21,
            DrawFunc::InvalidDrawFunc => 22,
        }
    }

    /// The demo at table index `value`, or the sentinel when no demo has that index.
    pub fn from_index(value: usize) -> (r: DrawFunc)
        ensures
            r == demo_at(value as int),
    {
        match value {
            1 => DrawFunc::DrawVbo,
            2 => DrawFunc::DrawVbo2,
            3 => DrawFunc::DrawVboVertexColor,
            4 => DrawFunc::DrawVboVertexColor2,
            5 => DrawFunc::DrawVaoVertexColor,
            6 => DrawFunc::DrawVaoVertexColor2,
            7 => DrawFunc::DrawVaoVertexColorElement2,
            8 => DrawFunc::DrawCircle,
            9 => DrawFunc::DrawComplex,
            10 => DrawFunc::DrawWithoutVbo,
            11 => DrawFunc::DrawLines,
            12 => DrawFunc::DrawPrimitiveRestart,
            13 => DrawFunc::DrawProvokingVertex,
            14 => DrawFunc::DrawInstance,
            15 => DrawFunc::DrawInstance2,
            16 => DrawFunc::DrawTriangleStrip,
            17 => DrawFunc::DrawModelViewProjection,
            18 => DrawFunc::DrawTexture,
            19 => DrawFunc::DrawTextureCubeMap,
            20 => DrawFunc::DrawTexture3,
            21 => DrawFunc::DrawTextureMipMapping,
            _ => DrawFunc::InvalidDrawFunc,
        }
    }

    /// The name of this demo.
    pub fn name(&self) -> (r: &'static str)
        ensures
            r@ == demo_name(*self),
    {
        match self {
            DrawFunc::DrawVbo => "DrawVbo",
            DrawFunc::DrawVbo2 => "DrawVbo2",
            DrawFunc::DrawVboVertexColor => "DrawVboVertexColor",
            DrawFunc::DrawVboVertexColor2 => "DrawVboVertexColor2",
            DrawFunc::DrawVaoVertexColor => "DrawVaoVertexColor",
            DrawFunc::DrawVaoVertexColor2 => "DrawVaoVertexColor2",
            DrawFunc::DrawVaoVertexColorElement2 => "DrawVaoVertexColorElement2",
            DrawFunc::DrawCircle => "DrawCircle",
            DrawFunc::DrawComplex => "DrawComplex",
            DrawFunc::DrawWithoutVbo => "DrawWithoutVbo",
            DrawFunc::DrawLines => "DrawLines",
            DrawFunc::DrawPrimitiveRestart => "DrawPrimitiveRestart",
            DrawFunc::DrawProvokingVertex => "DrawProvokingVertex",
            DrawFunc::DrawInstance => "DrawInstance",
            DrawFunc::DrawInstance2 => "DrawInstance2",
            DrawFunc::DrawTriangleStrip => "DrawTriangleStrip",
            DrawFunc::DrawModelViewProjection => "DrawModelViewProjection",
            DrawFunc::DrawTexture => "DrawTexture",
            DrawFunc::DrawTextureCubeMap => "DrawTextureCubeMap",
            DrawFunc::DrawTexture3 => "DrawTexture3",
            DrawFunc::DrawTextureMipMapping => "DrawTextureMipMapping",
            DrawFunc::InvalidDrawFunc => "InvalidDrawFunc",
        }
    }

    /// The listing line of this demo, e.g. `"  1_DrawVbo"` or `"17_DrawModelViewProjection"`.
    pub fn to_string(&self) -> (r: String)
        ensures
            r@ == demo_label(*self),
    {
        let digits = decimal_text(self.index());
        proof {
            reveal_strlit("_");
            reveal_strlit(", ");
        }
        let mut r = match self {
            DrawFunc::DrawVbo => right_aligned_text(digits.as_str(), 3),
            DrawFunc::DrawVbo2 => right_aligned_text(digits.as_str(), 3),
            _ => digits,
        };
        match self {
            DrawFunc::DrawVaoVertexColorElement2 => r.append(", "),
            _ => r.append("_"),
        }
        r.append(self.name());
        r
    }

    /// Every demo of the table, in index order, without the sentinel.
    pub fn all() -> (r: Vec<DrawFunc>)
        ensures
            r@.len() == DEMO_COUNT,
            forall|i: int| 0 <= i < DEMO_COUNT ==> #[trigger] r@[i] == demo_at(i + 1),
    {
        let mut r: Vec<DrawFunc> = Vec::new();
        let mut i: usize = 1;
        while i <= DEMO_COUNT
            invariant
                1 <= i <= DEMO_COUNT + 1,
                r@.len() == i - 1,
                forall|k: int| 0 <= k < i - 1 ==> #[trigger] r@[k] == demo_at(k + 1),
            decreases DEMO_COUNT + 1 - i,
        {
            r.push(DrawFunc::from_index(i));
            i = i + 1;
        }
        r
    }
}

impl From<usize> for DrawFunc {
    fn from(value: usize) -> DrawFunc {
        DrawFunc::from_index(value)
    }
}

impl vstd::std_specs::convert::FromSpecImpl<usize> for DrawFunc {
    open spec fn obeys_from_spec() -> bool {
        true
    }

    open spec fn from_spec(v: usize) -> DrawFunc {
        demo_at(v as int)
    }
}

impl From<&DrawFunc> for usize {
    fn from(value: &DrawFunc) -> usize {
        value.index()
    }
}

impl vstd::std_specs::convert::FromSpecImpl<&DrawFunc> for usize {
    open spec fn obeys_from_spec() -> bool {
        true
    }

    open spec fn from_spec(v: &DrawFunc) -> usize {
        demo_index(*v) as usize
    }
}

} // verus!
