//! An SVG drawing of a QR symbol: one unit square per dark module.

use vstd::prelude::*;
use vstd::string::*;
use qrcodegen::{QrCode, QrCodeEcc};
use crate::qrcode::Ecc;
use crate::decimal::{decimal, decimal_value, push_decimal, lemma_decimal_digits, law_decimal_reads_back};

verus! {

/// A QR symbol of the `qrcodegen` crate, carried through as an opaque value.
#[verifier::external_type_specification]
#[verifier::external_body]
pub struct ExQrCode(QrCode);

/// The modules of a QR symbol as `qrcodegen` reports them: row `y`, column `x`
/// holds what `QrCode::get_module(x, y)` returns for `0 <= x, y < size()`.
pub uninterp spec fn qr_grid(qr: QrCode) -> Seq<Seq<bool>>;

/// The symbol that `QrCode::encode_text` makes of `text` at level `ecc`, or
/// `None` where the text is too long for every version.
pub uninterp spec fn qr_symbol_of(text: Seq<char>, ecc: Ecc) -> Option<QrCode>;

/// `QrCode::encode_text` of `qrcodegen`: the symbol of a text, or `None` on its
/// only error (data too long). The result is a function of the arguments,
/// named `qr_symbol_of`.
#[verifier::external_body]
fn encode_text(text: &str, ecc: Ecc) -> (qr: Option<QrCode>)
    ensures
        qr == qr_symbol_of(text@, ecc),
{
    let level = match ecc {
        Ecc::Low => QrCodeEcc::Low,
        Ecc::Medium => QrCodeEcc::Medium,
        Ecc::Quartile => QrCodeEcc::Quartile,
        Ecc::High => QrCodeEcc::High,
    };
    QrCode::encode_text(text, level).ok()
}

/// `QrCode::size` of `qrcodegen`: the side length of the symbol in modules, in
/// the documented range [21, 177]; the grid of its modules has that many rows
/// of that many modules.
#[verifier::external_body]
fn qr_side(qr: &QrCode) -> (n: i32)
    ensures
        21 <= n <= 177,
        qr_grid(*qr).len() == n,
        forall|y: int| 0 <= y < n ==> #[trigger] qr_grid(*qr)[y].len() == n,
{
    qr.size()
}

/// `QrCode::get_module` of `qrcodegen`: whether the module at column `x`, row `y`
/// is dark; out of bounds the source answers light.
#[verifier::external_body]
fn qr_dark(qr: &QrCode, x: i32, y: i32) -> (dark: bool)
    ensures
        0 <= x < qr_grid(*qr).len() && 0 <= y < qr_grid(*qr).len() ==> dark == qr_grid(*qr)[y as int][x as int],
        !(0 <= x < qr_grid(*qr).len() && 0 <= y < qr_grid(*qr).len()) ==> !dark,
{
    qr.get_module(x, y)
}

/// A grid of modules is square: as many rows as each row has modules.
pub open spec fn is_square(rows: Seq<Seq<bool>>) -> bool {
    forall|y: int| 0 <= y < rows.len() ==> #[trigger] rows[y].len() == rows.len()
}

/// The text before the path data.
pub open spec fn svg_header() -> Seq<char> {
    "<?xml version=\"1.0\" encoding=\"UTF-8\"?>\n"@
        + "<!DOCTYPE svg PUBLIC \"-//W3C//DTD SVG 1.1//EN\" \"http://www.w3.org/Graphics/SVG/1.1/DTD/svg11.dtd\">\n"@
        + "<svg xmlns=\"http://www.w3.org/2000/svg\" version=\"1.1\" viewBox=\"0 0 29 29\" stroke=\"none\">\n"@
        + "\t<rect width=\"100%\" height=\"100%\" fill=\"#FFFFFF\"/>\n"@
        + "\t<path d=\""@
}

/// The text after the path data.
pub open spec fn svg_footer() -> Seq<char> {
    "\" fill=\"#000000\"/>\n"@ + "\" fill-rule=\"evenodd\"/>\n"@ + "</svg>\n"@
}

/// The path segment of the dark module at column `x`, row `y`: a unit square at
/// `(x + border, y + border)`, preceded by a space unless the module is the
/// top-left one.
pub open spec fn module_segment(x: nat, y: nat, border: nat) -> Seq<char> {
    (if x != 0 || y != 0 { " "@ } else { Seq::<char>::empty() })
        + "M"@ + decimal(x + border) + ","@ + decimal(y + border) + "h1v1h-1z"@
}

/// The segments of the first `upto` modules of row `y`, left to right.
pub open spec fn row_path(rows: Seq<Seq<bool>>, y: nat, upto: nat, border: nat) -> Seq<char>
    decreases upto,
{
    if upto == 0 {
        Seq::<char>::empty()
    } else {
        row_path(rows, y, (upto - 1) as nat, border) + if rows[y as int][upto - 1] {
            module_segment((upto - 1) as nat, y, border)
        } else {
            Seq::<char>::empty()
        }
    }
}

/// The segments of the first `upto` rows, top to bottom.
pub open spec fn grid_path(rows: Seq<Seq<bool>>, upto: nat, border: nat) -> Seq<char>
    decreases upto,
{
    if upto == 0 {
        Seq::<char>::empty()
    } else {
        grid_path(rows, (upto - 1) as nat, border) + row_path(
            rows,
            (upto - 1) as nat,
            rows.len(),
            border,
        )
    }
}

/// The whole SVG document for a square grid of modules and a border width.
pub open spec fn svg_text(rows: Seq<Seq<bool>>, border: nat) -> Seq<char> {
    svg_header() + grid_path(rows, rows.len(), border) + svg_footer()
}

/// Renders a square grid of modules (`rows[y][x]` is the module at column `x`,
/// row `y`) as an SVG document whose path holds one unit square per dark
/// module, shifted by `border`.
pub fn svg_from_modules(rows: &Vec<Vec<bool>>, border: i32) -> (svg: String)
    requires
        is_square(rows.deep_view()),
        0 <= border,
        rows.len() + 2 * border <= i32::MAX,
    ensures
        svg@ == svg_text(rows.deep_view(), border as nat),
{
    let ghost g = rows.deep_view();
    let n = rows.len();
    let b = border as u32;
    let mut s = String::new();
    s.append("<?xml version=\"1.0\" encoding=\"UTF-8\"?>\n");
    s.append("<!DOCTYPE svg PUBLIC \"-//W3C//DTD SVG 1.1//EN\" \"http://www.w3.org/Graphics/SVG/1.1/DTD/svg11.dtd\">\n");
    s.append("<svg xmlns=\"http://www.w3.org/2000/svg\" version=\"1.1\" viewBox=\"0 0 29 29\" stroke=\"none\">\n");
    s.append("\t<rect width=\"100%\" height=\"100%\" fill=\"#FFFFFF\"/>\n");
    s.append("\t<path d=\"");
    assert(s@ =~= svg_header() + grid_path(g, 0, b as nat));
    let mut y: usize = 0;
    while y < n
        invariant
            g == rows.deep_view(),
            n == rows.len(),
            is_square(g),
            b == border,
            n + 2 * b <= i32::MAX,
            y <= n,
            s@ == svg_header() + grid_path(g, y as nat, b as nat),
        decreases n - y,
    {
        let row = &rows[y];
        assert(row@.len() == n) by {
            assert(g[y as int] == rows[y as int].deep_view());
        }
        let ghost before = s@;
        let mut x: usize = 0;
        while x < n
            invariant
                g == rows.deep_view(),
                n == rows.len(),
                is_square(g),
                row == &rows[y as int],
                row@.len() == n,
                b == border,
                n + 2 * b <= i32::MAX,
                y < n,
                x <= n,
                s@ == before + row_path(g, y as nat, x as nat, b as nat),
            decreases n - x,
        {
            let ghost prev = s@;
            assert(g[y as int][x as int] == row@[x as int]) by {
                assert(g[y as int] == rows[y as int].deep_view());
            }
            if row[x] {
                if x != 0 || y != 0 {
                    s.append(" ");
                }
                s.append("M");
                push_decimal(&mut s, x as u32 + b);
                s.append(",");
                push_decimal(&mut s, y as u32 + b);
                s.append("h1v1h-1z");
                assert(s@ =~= prev + module_segment(x as nat, y as nat, b as nat));
            }
            assert(s@ =~= before + row_path(g, y as nat, (x + 1) as nat, b as nat));
            x += 1;
        }
        assert(s@ =~= svg_header() + grid_path(g, (y + 1) as nat, b as nat));
        y += 1;
    }
    s.append("\" fill=\"#000000\"/>\n");
    s.append("\" fill-rule=\"evenodd\"/>\n");
    s.append("</svg>\n");
    assert(s@ =~= svg_text(g, b as nat));
    s
}

/// Reads the modules of a QR symbol into a square grid, `rows[y][x]` being the
/// module at column `x`, row `y`.
pub fn qr_modules(qr: &QrCode) -> (rows: Vec<Vec<bool>>)
    ensures
        rows.deep_view() == qr_grid(*qr),
        is_square(rows.deep_view()),
        21 <= rows.len() <= 177,
{
    let ghost g = qr_grid(*qr);
    let n = qr_side(qr);
    let mut rows: Vec<Vec<bool>> = Vec::new();
    let mut y: i32 = 0;
    while y < n
        invariant
            g == qr_grid(*qr),
            g.len() == n,
            is_square(g),
            21 <= n <= 177,
            0 <= y <= n,
            rows.len() == y,
            forall|i: int| 0 <= i < y ==> #[trigger] rows[i]@ == g[i],
        decreases n - y,
    {
        let mut row: Vec<bool> = Vec::new();
        let mut x: i32 = 0;
        while x < n
            invariant
                g == qr_grid(*qr),
                g.len() == n,
                is_square(g),
                21 <= n <= 177,
                0 <= y < n,
                0 <= x <= n,
                row.len() == x,
                forall|j: int| 0 <= j < x ==> #[trigger] row@[j] == g[y as int][j],
            decreases n - x,
        {
            row.push(qr_dark(qr, x, y));
            x += 1;
        }
        assert(row@ =~= g[y as int]);
        rows.push(row);
        y += 1;
    }
    assert(rows.deep_view() =~= g) by {
        assert forall|i: int| 0 <= i < g.len() implies #[trigger] rows.deep_view()[i] == g[i] by {
            assert(rows.deep_view()[i] == rows[i].deep_view());
        }
    }
    rows
}

/// The SVG drawing of a QR symbol with a border of `border` modules: the header,
/// a path with one unit square per dark module of the symbol (row by row, left
/// to right), and the footer.
pub fn to_svg_string(qr: &QrCode, border: i32) -> (svg: String)
    requires
        0 <= border,
        qr_grid(*qr).len() + 2 * border <= i32::MAX,
    ensures
        svg@ == svg_text(qr_grid(*qr), border as nat),
{
    let rows = qr_modules(qr);
    svg_from_modules(&rows, border)
}

/// The SVG drawing, with a border of `border` modules, of the high-correction
/// QR symbol of `text`; `None` where the text does not fit a symbol, or where
/// the border is negative or too wide for the symbol's coordinates.
pub fn svg_of_text(text: &str, border: i32) -> (svg: Option<String>)
    ensures
        match qr_symbol_of(text@, Ecc::High) {
            None => svg is None,
            Some(qr) => if 0 <= border && qr_grid(qr).len() + 2 * border <= i32::MAX {
                svg matches Some(s) && s@ == svg_text(qr_grid(qr), border as nat)
            } else {
                svg is None
            },
        },
{
    let qr = match encode_text(text, Ecc::High) {
        Some(qr) => qr,
        None => return None,
    };
    let n = qr_side(&qr);
    if border < 0 || border > (i32::MAX - n) / 2 {
        return None;
    }
    Some(to_svg_string(&qr, border))
}

/// The square of the dark module at column `x`, row `y` is drawn at
/// `(x + border, y + border)`: its segment is `M`, the base-ten digits of
/// `x + border`, a comma, the base-ten digits of `y + border`, and the unit
/// square's moves, after a space for every module but the top-left one.
pub proof fn law_segment_coordinates(x: nat, y: nat, border: nat)
    ensures
        exists|cx: Seq<char>, cy: Seq<char>|
            #![trigger decimal_value(cx), decimal_value(cy)]
            decimal_value(cx) == x + border && decimal_value(cy) == y + border && (forall|i: int|
                0 <= i < cx.len() ==> '0' <= #[trigger] cx[i] <= '9') && (forall|i: int|
                0 <= i < cy.len() ==> '0' <= #[trigger] cy[i] <= '9') && module_segment(x, y, border)
                == (if x != 0 || y != 0 { " "@ } else { Seq::<char>::empty() }) + "M"@ + cx + ","@
                + cy + "h1v1h-1z"@,
{
    law_decimal_reads_back(x + border);
    law_decimal_reads_back(y + border);
    let cx = decimal(x + border);
    let cy = decimal(y + border);
    assert(decimal_value(cx) == x + border && decimal_value(cy) == y + border);
}

/// How many times `c` occurs in `s`.
pub open spec fn count_char(s: Seq<char>, c: char) -> nat
    decreases s.len(),
{
    if s.len() == 0 {
        0
    } else {
        count_char(s.drop_last(), c) + if s.last() == c { 1nat } else { 0nat }
    }
}

/// How many of the first `upto` modules of row `y` are dark.
pub open spec fn dark_in_row(rows: Seq<Seq<bool>>, y: nat, upto: nat) -> nat
    decreases upto,
{
    if upto == 0 {
        0
    } else {
        dark_in_row(rows, y, (upto - 1) as nat) + if rows[y as int][upto - 1] { 1nat } else { 0nat }
    }
}

/// How many modules of the first `upto` rows are dark.
pub open spec fn dark_in_rows(rows: Seq<Seq<bool>>, upto: nat) -> nat
    decreases upto,
{
    if upto == 0 {
        0
    } else {
        dark_in_rows(rows, (upto - 1) as nat) + dark_in_row(rows, (upto - 1) as nat, rows.len())
    }
}

proof fn lemma_count_concat(a: Seq<char>, b: Seq<char>, c: char)
    ensures
        count_char(a + b, c) == count_char(a, c) + count_char(b, c),
    decreases b.len(),
{
    if b.len() == 0 {
        assert(a + b =~= a);
    } else {
        lemma_count_concat(a, b.drop_last(), c);
        assert((a + b).drop_last() =~= a + b.drop_last());
    }
}

proof fn lemma_count_absent(s: Seq<char>, c: char)
    requires
        forall|i: int| 0 <= i < s.len() ==> s[i] != c,
    ensures
        count_char(s, c) == 0,
    decreases s.len(),
{
    if s.len() > 0 {
        lemma_count_absent(s.drop_last(), c);
    }
}

proof fn lemma_decimal_has_no_m(n: nat)
    ensures
        count_char(decimal(n), 'M') == 0,
{
    lemma_decimal_digits(n);
    assert forall|i: int| 0 <= i < decimal(n).len() implies decimal(n)[i] != 'M' by {
        assert('0' <= decimal(n)[i] <= '9');
    }
    lemma_count_absent(decimal(n), 'M');
}

proof fn lemma_segment_has_one_m(x: nat, y: nat, border: nat)
    ensures
        count_char(module_segment(x, y, border), 'M') == 1,
{
    reveal_strlit(" ");
    reveal_strlit("M");
    reveal_strlit(",");
    reveal_strlit("h1v1h-1z");
    let sep = if x != 0 || y != 0 { " "@ } else { Seq::<char>::empty() };
    lemma_count_absent(sep, 'M');
    lemma_count_absent(","@, 'M');
    lemma_count_absent("h1v1h-1z"@, 'M');
    assert(count_char("M"@, 'M') == 1) by {
        assert("M"@ =~= seq!['M']);
        assert(seq!['M'].drop_last() =~= Seq::<char>::empty());
        assert(count_char(Seq::<char>::empty(), 'M') == 0);
        assert(seq!['M'].last() == 'M');
        assert(count_char(seq!['M'], 'M') == 1);
    }
    lemma_decimal_has_no_m(x + border);
    lemma_decimal_has_no_m(y + border);
    lemma_count_concat(sep, "M"@, 'M');
    lemma_count_concat(sep + "M"@, decimal(x + border), 'M');
    lemma_count_concat(sep + "M"@ + decimal(x + border), ","@, 'M');
    lemma_count_concat(sep + "M"@ + decimal(x + border) + ","@, decimal(y + border), 'M');
    lemma_count_concat(
        sep + "M"@ + decimal(x + border) + ","@ + decimal(y + border),
        "h1v1h-1z"@,
        'M',
    );
}

proof fn lemma_row_path_count(rows: Seq<Seq<bool>>, y: nat, upto: nat, border: nat)
    ensures
        count_char(row_path(rows, y, upto, border), 'M') == dark_in_row(rows, y, upto),
    decreases upto,
{
    if upto > 0 {
        lemma_row_path_count(rows, y, (upto - 1) as nat, border);
        let tail = if rows[y as int][upto - 1] {
            module_segment((upto - 1) as nat, y, border)
        } else {
            Seq::<char>::empty()
        };
        lemma_count_concat(row_path(rows, y, (upto - 1) as nat, border), tail, 'M');
        if rows[y as int][upto - 1] {
            lemma_segment_has_one_m((upto - 1) as nat, y, border);
        } else {
            lemma_count_absent(tail, 'M');
        }
    }
}

proof fn lemma_grid_path_count(rows: Seq<Seq<bool>>, upto: nat, border: nat)
    ensures
        count_char(grid_path(rows, upto, border), 'M') == dark_in_rows(rows, upto),
    decreases upto,
{
    if upto > 0 {
        lemma_grid_path_count(rows, (upto - 1) as nat, border);
        lemma_row_path_count(rows, (upto - 1) as nat, rows.len(), border);
        lemma_count_concat(
            grid_path(rows, (upto - 1) as nat, border),
            row_path(rows, (upto - 1) as nat, rows.len(), border),
            'M',
        );
    }
}

proof fn lemma_frame_has_no_m()
    ensures
        count_char(svg_header(), 'M') == 0,
        count_char(svg_footer(), 'M') == 0,
{
    let h0 = "<?xml version=\"1.0\" encoding=\"UTF-8\"?>\n"@;
    let h1 = "<!DOCTYPE svg PUBLIC \"-//W3C//DTD SVG 1.1//EN\" \"http://www.w3.org/Graphics/SVG/1.1/DTD/svg11.dtd\">\n"@;
    let h2 = "<svg xmlns=\"http://www.w3.org/2000/svg\" version=\"1.1\" viewBox=\"0 0 29 29\" stroke=\"none\">\n"@;
    let h3 = "\t<rect width=\"100%\" height=\"100%\" fill=\"#FFFFFF\"/>\n"@;
    let h4 = "\t<path d=\""@;
    let f0 = "\" fill=\"#000000\"/>\n"@;
    let f1 = "\" fill-rule=\"evenodd\"/>\n"@;
    let f2 = "</svg>\n"@;
    reveal_strlit("<?xml version=\"1.0\" encoding=\"UTF-8\"?>\n");
    reveal_strlit("<!DOCTYPE svg PUBLIC \"-//W3C//DTD SVG 1.1//EN\" \"http://www.w3.org/Graphics/SVG/1.1/DTD/svg11.dtd\">\n");
    reveal_strlit("<svg xmlns=\"http://www.w3.org/2000/svg\" version=\"1.1\" viewBox=\"0 0 29 29\" stroke=\"none\">\n");
    reveal_strlit("\t<rect width=\"100%\" height=\"100%\" fill=\"#FFFFFF\"/>\n");
    reveal_strlit("\t<path d=\"");
    reveal_strlit("\" fill=\"#000000\"/>\n");
    reveal_strlit("\" fill-rule=\"evenodd\"/>\n");
    reveal_strlit("</svg>\n");
    lemma_count_absent(h0, 'M');
    lemma_count_absent(h1, 'M');
    lemma_count_absent(h2, 'M');
    lemma_count_absent(h3, 'M');
    lemma_count_absent(h4, 'M');
    lemma_count_absent(f0, 'M');
    lemma_count_absent(f1, 'M');
    lemma_count_absent(f2, 'M');
    lemma_count_concat(h0, h1, 'M');
    lemma_count_concat(h0 + h1, h2, 'M');
    lemma_count_concat(h0 + h1 + h2, h3, 'M');
    lemma_count_concat(h0 + h1 + h2 + h3, h4, 'M');
    lemma_count_concat(f0, f1, 'M');
    lemma_count_concat(f0 + f1, f2, 'M');
}

/// The drawing holds exactly one square per dark module: the letter `M`, which
/// starts each square of the path, occurs in the document as many times as the
/// grid has dark modules, whatever the border.
pub proof fn law_one_square_per_dark_module(rows: Seq<Seq<bool>>, border: nat)
    requires
        is_square(rows),
    ensures
        count_char(svg_text(rows, border), 'M') == dark_in_rows(rows, rows.len()),
{
    lemma_frame_has_no_m();
    lemma_grid_path_count(rows, rows.len(), border);
    lemma_count_concat(svg_header(), grid_path(rows, rows.len(), border), 'M');
    lemma_count_concat(svg_header() + grid_path(rows, rows.len(), border), svg_footer(), 'M');
}

} // verus!
