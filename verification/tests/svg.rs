use mili::decimal::push_decimal;
use mili::svg::{qr_modules, svg_from_modules, to_svg_string};
use qrcodegen::{QrCode, QrCodeEcc};

const HEADER: &str = "<?xml version=\"1.0\" encoding=\"UTF-8\"?>\n<!DOCTYPE svg PUBLIC \"-//W3C//DTD SVG 1.1//EN\" \"http://www.w3.org/Graphics/SVG/1.1/DTD/svg11.dtd\">\n<svg xmlns=\"http://www.w3.org/2000/svg\" version=\"1.1\" viewBox=\"0 0 29 29\" stroke=\"none\">\n\t<rect width=\"100%\" height=\"100%\" fill=\"#FFFFFF\"/>\n\t<path d=\"";
const FOOTER: &str = "\" fill=\"#000000\"/>\n\" fill-rule=\"evenodd\"/>\n</svg>\n";

fn decimal_of(n: u32) -> String {
    let mut s = String::new();
    push_decimal(&mut s, n);
    s
}

#[test]
fn decimal_notation_of_small_and_large_numbers() {
    assert_eq!(decimal_of(0), "0");
    assert_eq!(decimal_of(7), "7");
    assert_eq!(decimal_of(10), "10");
    assert_eq!(decimal_of(1234), "1234");
    assert_eq!(decimal_of(u32::MAX), "4294967295");
}

#[test]
fn decimal_appends_to_existing_text() {
    let mut s = String::from("x=");
    push_decimal(&mut s, 905);
    assert_eq!(s, "x=905");
}

#[test]
fn diagonal_grid_gives_two_squares() {
    let rows = vec![vec![true, false], vec![false, true]];
    let svg = svg_from_modules(&rows, 1);
    let expected = format!("{}M1,1h1v1h-1z M2,2h1v1h-1z{}", HEADER, FOOTER);
    assert_eq!(svg, expected);
}

#[test]
fn light_top_left_module_gives_leading_space() {
    let rows = vec![vec![false, true], vec![false, false]];
    let svg = svg_from_modules(&rows, 0);
    assert_eq!(svg, format!("{} M1,0h1v1h-1z{}", HEADER, FOOTER));
}

#[test]
fn empty_and_all_light_grids_give_empty_path() {
    let empty: Vec<Vec<bool>> = Vec::new();
    assert_eq!(svg_from_modules(&empty, 4), format!("{}{}", HEADER, FOOTER));
    let light = vec![vec![false; 3]; 3];
    assert_eq!(svg_from_modules(&light, 4), format!("{}{}", HEADER, FOOTER));
}

#[test]
fn border_shifts_coordinates() {
    let rows = vec![vec![false, false, false], vec![false, false, false], vec![false, false, true]];
    let svg = svg_from_modules(&rows, 12);
    assert_eq!(svg, format!("{} M14,14h1v1h-1z{}", HEADER, FOOTER));
}

#[test]
fn qr_symbol_modules_are_read_in_rows() {
    let qr = QrCode::encode_text("Hello, world!", QrCodeEcc::High).unwrap();
    let rows = qr_modules(&qr);
    let n = qr.size() as usize;
    assert_eq!(rows.len(), n);
    for y in 0..n {
        assert_eq!(rows[y].len(), n);
        for x in 0..n {
            assert_eq!(rows[y][x], qr.get_module(x as i32, y as i32));
        }
    }
}

#[test]
fn qr_svg_has_one_square_per_dark_module() {
    let qr = QrCode::encode_text("Hello, world!", QrCodeEcc::High).unwrap();
    let svg = to_svg_string(&qr, 1);
    assert!(svg.starts_with(HEADER));
    assert!(svg.ends_with(FOOTER));
    let mut dark = 0;
    for y in 0..qr.size() {
        for x in 0..qr.size() {
            if qr.get_module(x, y) {
                dark += 1;
            }
        }
    }
    assert_eq!(svg.matches('M').count(), dark);
    assert!(svg.contains(&format!("{}M1,1h1v1h-1z", HEADER)));
}

#[test]
fn svg_of_text_matches_the_symbol() {
    let qr = QrCode::encode_text("Hello, world!", QrCodeEcc::High).unwrap();
    assert_eq!(mili::svg::svg_of_text("Hello, world!", 1), Some(to_svg_string(&qr, 1)));
    assert_eq!(mili::svg::svg_of_text("Hello, world!", -1), None);
    assert_eq!(mili::svg::svg_of_text("Hello, world!", i32::MAX / 2), None);
    assert_eq!(mili::svg::svg_of_text(&"x".repeat(4000), 1), None);
}
