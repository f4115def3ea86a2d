use vstd::prelude::*;

use crate::strutil::push_char;

verus! {

/// What one character becomes in escaped text: the XML-reserved `&`, `<`
/// and `>` become entities, every other character stands for itself.
pub open spec fn spec_escape_char(c: char) -> Seq<char> {
    if c == '&' {
        seq!['&', 'a', 'm', 'p', ';']
    } else if c == '<' {
        seq!['&', 'l', 't', ';']
    } else if c == '>' {
        seq!['&', 'g', 't', ';']
    } else {
        seq![c]
    }
}

/// A string with its XML-reserved characters escaped.
pub open spec fn spec_escape(s: Seq<char>) -> Seq<char>
    decreases s.len(),
{
    if s.len() == 0 {
        Seq::empty()
    } else {
        spec_escape(s.drop_last()) + spec_escape_char(s.last())
    }
}

/// Escape the XML-reserved characters `&`, `<` and `>` so that the text can
/// stand inside an SVG document without breaking its markup.
pub fn escape_xml(s: &str) -> (r: String)
    ensures
        r@ == spec_escape(s@),
{
    let n = s.unicode_len();
    let mut out = String::new();
    let mut i: usize = 0;
    while i < n
        invariant
            0 <= i <= n,
            n == s@.len(),
            out@ == spec_escape(s@.subrange(0, i as int)),
        decreases n - i,
    {
        let c = s.get_char(i);
        if c == '&' {
            out.append("&amp;");
            proof {
                reveal_strlit("&amp;");
                assert("&amp;"@ =~= spec_escape_char(c));
            }
        } else if c == '<' {
            out.append("&lt;");
            proof {
                reveal_strlit("&lt;");
                assert("&lt;"@ =~= spec_escape_char(c));
            }
        } else if c == '>' {
            out.append("&gt;");
            proof {
                reveal_strlit("&gt;");
                assert("&gt;"@ =~= spec_escape_char(c));
            }
        } else {
            push_char(&mut out, c);
            proof {
                assert(out@ =~= spec_escape(s@.subrange(0, i as int)) + spec_escape_char(c));
            }
        }
        proof {
            let p = s@.subrange(0, i + 1);
            assert(p.drop_last() =~= s@.subrange(0, i as int));
            assert(p.last() == s@[i as int]);
        }
        i = i + 1;
    }
    proof {
        assert(s@.subrange(0, n as int) =~= s@);
    }
    out
}

/// The attribute text placed in front of each namespace declaration.
pub open spec fn spec_fill_attr(fg: Seq<char>) -> Seq<char> {
    "fill=\"#"@ + fg + "\" "@
}

/// The icon markup with a fill attribute injected: every occurrence of the
/// namespace-declaration keyword `xmlns` gains `fill="#<fg>" ` in front of
/// it, scanning left to right without overlap.
pub open spec fn spec_inject_fill(icon: Seq<char>, fg: Seq<char>) -> Seq<char>
    decreases icon.len(),
{
    if icon.len() < 5 {
        icon
    } else if icon.subrange(0, 5) == "xmlns"@ {
        spec_fill_attr(fg) + "xmlns"@ + spec_inject_fill(icon.skip(5), fg)
    } else {
        seq![icon[0]] + spec_inject_fill(icon.skip(1), fg)
    }
}

/// Inject a fill color into icon markup by textual substitution at each
/// `xmlns` namespace declaration.
pub fn inject_fill(icon: &str, fg: &str) -> (r: String)
    ensures
        r@ == spec_inject_fill(icon@, fg@),
{
    let n = icon.unicode_len();
    let mut out = String::new();
    let mut i: usize = 0;
    proof {
        assert(icon@.skip(0) =~= icon@);
        assert(out@ + spec_inject_fill(icon@, fg@) =~= spec_inject_fill(icon@, fg@));
    }
    while i < n
        invariant
            0 <= i <= n,
            n == icon@.len(),
            spec_inject_fill(icon@, fg@) == out@ + spec_inject_fill(
                icon@.skip(i as int),
                fg@,
            ),
        decreases n - i,
    {
        let matched = n - i >= 5 && icon.get_char(i) == 'x' && icon.get_char(i + 1) == 'm'
            && icon.get_char(i + 2) == 'l' && icon.get_char(i + 3) == 'n' && icon.get_char(i + 4)
            == 's';
        proof {
            reveal_strlit("xmlns");
        }
        let ghost rest = icon@.skip(i as int);
        let ghost out0 = out@;
        if matched {
            out.append("fill=\"#");
            out.append(fg);
            out.append("\" ");
            out.append("xmlns");
            proof {
                assert(rest.subrange(0, 5) =~= "xmlns"@);
                assert(rest.skip(5) =~= icon@.skip(i + 5));
                assert(spec_inject_fill(rest, fg@) == spec_fill_attr(fg@) + "xmlns"@
                    + spec_inject_fill(rest.skip(5), fg@));
                assert(out@ =~= out0 + spec_fill_attr(fg@) + "xmlns"@);
                assert(out@ + spec_inject_fill(rest.skip(5), fg@) =~= out0 + spec_inject_fill(
                    rest,
                    fg@,
                ));
            }
            i = i + 5;
        } else {
            let c = icon.get_char(i);
            push_char(&mut out, c);
            proof {
                if rest.len() >= 5 {
                    assert("xmlns"@.len() == 5);
                    if rest.subrange(0, 5) == "xmlns"@ {
                        assert(rest.subrange(0, 5)[0] == icon@[i as int]);
                        assert(rest.subrange(0, 5)[1] == icon@[i + 1]);
                        assert(rest.subrange(0, 5)[2] == icon@[i + 2]);
                        assert(rest.subrange(0, 5)[3] == icon@[i + 3]);
                        assert(rest.subrange(0, 5)[4] == icon@[i + 4]);
                        assert(false);
                    }
                }
                assert(rest[0] == icon@[i as int]);
                assert(rest.skip(1) =~= icon@.skip(i + 1));
                if rest.len() < 5 {
                    if rest.len() == 1 {
                        assert(rest.skip(1) =~= Seq::<char>::empty());
                        assert(spec_inject_fill(rest.skip(1), fg@) =~= rest.skip(1));
                    }
                    assert(spec_inject_fill(rest.skip(1), fg@) == rest.skip(1));
                    assert(rest =~= seq![rest[0]] + rest.skip(1));
                    assert(spec_inject_fill(rest, fg@) == seq![rest[0]] + spec_inject_fill(
                        rest.skip(1),
                        fg@,
                    ));
                } else {
                    assert(spec_inject_fill(rest, fg@) == seq![rest[0]] + spec_inject_fill(
                        rest.skip(1),
                        fg@,
                    ));
                }
                assert(out@ =~= out0 + seq![rest[0]]);
                assert(out@ + spec_inject_fill(rest.skip(1), fg@) =~= out0 + spec_inject_fill(
                    rest,
                    fg@,
                ));
            }
            i = i + 1;
        }
    }
    proof {
        assert(icon@.skip(n as int) =~= Seq::<char>::empty());
        assert(spec_inject_fill(icon@.skip(n as int), fg@) =~= Seq::<char>::empty());
        assert(out@ =~= spec_inject_fill(icon@, fg@));
    }
    out
}

/// The fixed-layout SVG document: XML and DOCTYPE header, a 500 by 72
/// canvas, a background rectangle, a narrow foreground accent bar, the
/// title and subtitle text in the foreground color, and the icon markup
/// scaled into the left edge. The text and icon arguments are taken as
/// given: escaping and fill injection happen before assembly.
pub open spec fn spec_svg_document(
    title: Seq<char>,
    text: Seq<char>,
    fg: Seq<char>,
    bg: Seq<char>,
    icon: Seq<char>,
) -> Seq<char> {
    "<?xml version=\"1.0\" encoding=\"UTF-8\"?>\n<!DOCTYPE svg PUBLIC \"-//W3C//DTD SVG 1.1//EN\" \"http://www.w3.org/Graphics/SVG/1.1/DTD/svg11.dtd\">\n<svg xmlns=\"http://www.w3.org/2000/svg\" version=\"1.1\" width=\"500\" height=\"72\">\n<rect fill=\"#"@
        + bg + "\" x=\"0\" y=\"0\" width=\"500\" height=\"72\"/>\n<rect fill=\"#"@ + fg
        + "\" x=\"87\" y=\"11\" width=\"10\" height=\"50\"/>\n<g transform=\"scale(1)\">\n  <text fill=\"#"@
        + fg + "\" x=\"110\" y=\"40\" font-size=\"33px\" font-weight=\"bold\" font-family=\"sans serif\">"@
        + title + "</text>\n  <text fill=\"#"@ + fg + "\" x=\"110\" y=\"55\" font-size=\"13px\">"@
        + text + "</text>\n  <g transform=\"translate(5 0) scale(3)\">\n  "@ + icon
        + "\n  </g>\n</g></svg>"@
}

/// Assemble the final SVG document from already-prepared pieces.
pub fn assemble_svg(title: &str, text: &str, fg: &str, bg: &str, icon: &str) -> (r: String)
    ensures
        r@ == spec_svg_document(title@, text@, fg@, bg@, icon@),
{
    let mut out = String::from_str(
        "<?xml version=\"1.0\" encoding=\"UTF-8\"?>\n<!DOCTYPE svg PUBLIC \"-//W3C//DTD SVG 1.1//EN\" \"http://www.w3.org/Graphics/SVG/1.1/DTD/svg11.dtd\">\n<svg xmlns=\"http://www.w3.org/2000/svg\" version=\"1.1\" width=\"500\" height=\"72\">\n<rect fill=\"#",
    );
    out.append(bg);
    out.append("\" x=\"0\" y=\"0\" width=\"500\" height=\"72\"/>\n<rect fill=\"#");
    out.append(fg);
    out.append(
        "\" x=\"87\" y=\"11\" width=\"10\" height=\"50\"/>\n<g transform=\"scale(1)\">\n  <text fill=\"#",
    );
    out.append(fg);
    out.append(
        "\" x=\"110\" y=\"40\" font-size=\"33px\" font-weight=\"bold\" font-family=\"sans serif\">",
    );
    out.append(title);
    out.append("</text>\n  <text fill=\"#");
    out.append(fg);
    out.append("\" x=\"110\" y=\"55\" font-size=\"13px\">");
    out.append(text);
    out.append("</text>\n  <g transform=\"translate(5 0) scale(3)\">\n  ");
    out.append(icon);
    out.append("\n  </g>\n</g></svg>");
    proof {
        assert(out@ =~= spec_svg_document(title@, text@, fg@, bg@, icon@));
    }
    out
}

} // verus!
