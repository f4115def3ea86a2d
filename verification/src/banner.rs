use vstd::prelude::*;

use crate::color::{darken, hex_color, spec_color_hex, spec_darken, spec_hex_color,
    valid_hex_color};
use crate::error::BannerError;
use crate::icons::{is_valid_icon_name, valid_icon_name};
use crate::svg::{assemble_svg, escape_xml, inject_fill, spec_escape, spec_inject_fill,
    spec_svg_document};

verus! {

/// The optional query parameters of a banner request: explicit foreground
/// and background colors and an icon name.
pub struct BannerQuery {
    pub fg: Option<String>,
    pub bg: Option<String>,
    pub symbol: Option<String>,
}

/// The required path segments of a banner request: title and subtitle text.
pub struct BannerPath {
    pub title: String,
    pub text: String,
}

/// A banner request with every choice made: both colors are well-formed hex
/// strings and the icon name has passed validation.
#[derive(Debug)]
pub struct ResolvedBanner {
    pub fg: String,
    pub bg: String,
    pub symbol: String,
}

/// Well-formedness of a resolved banner request.
pub open spec fn resolved_wf(r: ResolvedBanner) -> bool {
    valid_hex_color(r.fg@) && valid_hex_color(r.bg@) && valid_icon_name(r.symbol@)
}

/// The background color a request resolves to: the given one, or the fixed
/// default.
pub open spec fn spec_resolve_bg(q: BannerQuery) -> Seq<char> {
    match q.bg {
        Some(s) => s@,
        None => "999999"@,
    }
}

/// The foreground color a request resolves to: the given one, or the
/// darkened background.
pub open spec fn spec_resolve_fg(q: BannerQuery) -> Seq<char> {
    match q.fg {
        Some(s) => s@,
        None => spec_color_hex(spec_darken(spec_hex_color(spec_resolve_bg(q)))),
    }
}

/// The icon name a request resolves to: the given one, or the fixed
/// default.
pub open spec fn spec_resolve_symbol(q: BannerQuery) -> Seq<char> {
    match q.symbol {
        Some(s) => s@,
        None => "question_mark"@,
    }
}

/// A supplied background color must be well-formed; an absent one is fine.
pub open spec fn bg_acceptable(q: BannerQuery) -> bool {
    q.bg is Some ==> valid_hex_color(q.bg.unwrap()@)
}

/// A supplied foreground color must be well-formed; an absent one is fine.
pub open spec fn fg_acceptable(q: BannerQuery) -> bool {
    q.fg is Some ==> valid_hex_color(q.fg.unwrap()@)
}

/// A supplied icon name must pass validation; an absent one is fine.
pub open spec fn symbol_acceptable(q: BannerQuery) -> bool {
    q.symbol is Some ==> valid_icon_name(q.symbol.unwrap()@)
}

/// Resolve the optional parameters of a request. Succeeds exactly when
/// every supplied parameter is acceptable; defaults never fail. A malformed
/// color is reported ahead of a bad icon name.
pub fn prepare_banner(q: &BannerQuery) -> (r: Result<ResolvedBanner, BannerError>)
    ensures
        r is Ok <==> bg_acceptable(*q) && fg_acceptable(*q) && symbol_acceptable(*q),
        r is Ok ==> {
            &&& r.unwrap().bg@ == spec_resolve_bg(*q)
            &&& r.unwrap().fg@ == spec_resolve_fg(*q)
            &&& r.unwrap().symbol@ == spec_resolve_symbol(*q)
            &&& resolved_wf(r.unwrap())
        },
        r is Err ==> r.unwrap_err() == (if !bg_acceptable(*q) || !fg_acceptable(*q) {
            BannerError::MalformedColor
        } else {
            BannerError::IconNotFound
        }),
{
    let bg: String = match &q.bg {
        Some(s) => {
            match hex_color(s.as_str()) {
                Ok(_) => s.clone(),
                Err(e) => {
                    return Err(e);
                },
            }
        },
        None => {
            let d = String::from_str("999999");
            proof {
                reveal_strlit("999999");
                assert(valid_hex_color(d@)) by {
                    assert(d@.len() == 6);
                    assert(forall|i: int| 0 <= i < 6 ==> d@[i] == '9');
                };
            }
            d
        },
    };
    let fg: String = match &q.fg {
        Some(s) => {
            match hex_color(s.as_str()) {
                Ok(_) => s.clone(),
                Err(e) => {
                    return Err(e);
                },
            }
        },
        None => darken(bg.as_str()),
    };
    let symbol: String = match &q.symbol {
        Some(s) => {
            if is_valid_icon_name(s.as_str()) {
                s.clone()
            } else {
                return Err(BannerError::IconNotFound);
            }
        },
        None => {
            let d = String::from_str("question_mark");
            proof {
                reveal_strlit("question_mark");
                assert(valid_icon_name(d@));
            }
            d
        },
    };
    Ok(ResolvedBanner { fg, bg, symbol })
}

/// Render the banner document for a request whose parameters are resolved
/// and whose icon markup has been fetched: the title and subtitle are
/// escaped, the foreground color is injected into the icon markup, and the
/// pieces are assembled into the fixed-layout SVG document.
pub fn render_banner(path: &BannerPath, r: &ResolvedBanner, icon: &str) -> (out: String)
    ensures
        out@ == spec_svg_document(
            spec_escape(path.title@),
            spec_escape(path.text@),
            r.fg@,
            r.bg@,
            spec_inject_fill(icon@, r.fg@),
        ),
{
    let title = escape_xml(path.title.as_str());
    let text = escape_xml(path.text.as_str());
    let injected = inject_fill(icon, r.fg.as_str());
    assemble_svg(title.as_str(), text.as_str(), r.fg.as_str(), r.bg.as_str(), injected.as_str())
}

} // verus!
