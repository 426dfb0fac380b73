//! A link shortener's core: short-link identifiers, redirects, QR codes with an
//! optional logo, logo preparation, and an SVG rendering of a QR symbol.

pub mod decimal;
pub mod reply;
pub mod svg;
pub mod ids;
pub mod qrcode;
pub mod links;
