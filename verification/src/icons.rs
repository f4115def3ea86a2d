use vstd::prelude::*;

use crate::strutil::push_char;

verus! {

/// A character an icon name may contain: ASCII letters, digits, underscore
/// or hyphen. Path separators and dots are excluded, so a valid name can
/// never escape the icon directory.
pub open spec fn spec_is_icon_char(c: char) -> bool {
    ('a' <= c && c <= 'z') || ('A' <= c && c <= 'Z') || ('0' <= c && c <= '9') || c == '_' || c
        == '-'
}

/// A well-formed icon name: non-empty, with every character drawn from the
/// icon-name alphabet.
pub open spec fn valid_icon_name(s: Seq<char>) -> bool {
    s.len() > 0 && forall|i: int| 0 <= i < s.len() ==> spec_is_icon_char(s[i])
}

/// Whether one character may appear in an icon name.
fn is_icon_char(c: char) -> (r: bool)
    ensures
        r == spec_is_icon_char(c),
{
    let v = c as u32;
    (97 <= v && v <= 122) || (65 <= v && v <= 90) || (48 <= v && v <= 57) || v == 95 || v == 45
}

/// Whether a name may be looked up in the icon directory.
pub fn is_valid_icon_name(name: &str) -> (r: bool)
    ensures
        r == valid_icon_name(name@),
{
    let n = name.unicode_len();
    if n == 0 {
        return false;
    }
    let mut i: usize = 0;
    while i < n
        invariant
            0 <= i <= n,
            n == name@.len(),
            forall|j: int| 0 <= j < i ==> spec_is_icon_char(name@[j]),
        decreases n - i,
    {
        if !is_icon_char(name.get_char(i)) {
            return false;
        }
        i = i + 1;
    }
    true
}

/// The fixed storage location of a named icon.
pub open spec fn spec_icon_path(name: Seq<char>) -> Seq<char> {
    "icons/outlined/"@ + name + ".svg"@
}

/// Build the storage path of a named icon. The name must already have been
/// validated: the path is formed by plain interpolation.
pub fn icon_path(name: &str) -> (r: String)
    requires
        valid_icon_name(name@),
    ensures
        r@ == spec_icon_path(name@),
{
    let mut out = String::from_str("icons/outlined/");
    out.append(name);
    out.append(".svg");
    proof {
        assert(out@ =~= spec_icon_path(name@));
    }
    out
}

/// A name wrapped in double quotes.
pub open spec fn spec_quoted(name: Seq<char>) -> Seq<char> {
    seq!['"'] + name + seq!['"']
}

/// The comma-separated list of quoted names, in the order given.
pub open spec fn spec_icon_list(names: Seq<Seq<char>>) -> Seq<char>
    decreases names.len(),
{
    if names.len() == 0 {
        Seq::empty()
    } else if names.len() == 1 {
        spec_quoted(names[0])
    } else {
        spec_icon_list(names.drop_last()) + seq![','] + spec_quoted(names.last())
    }
}

/// The JSON discovery document: an object with a single key `icons` holding
/// the array of names, in the order given.
pub open spec fn spec_icons_json(names: Seq<Seq<char>>) -> Seq<char> {
    "{\"icons\": ["@ + spec_icon_list(names) + "]}"@
}

/// Render the icon discovery document for the given names.
pub fn icons_json(names: &Vec<String>) -> (r: String)
    ensures
        r@ == spec_icons_json(names@.map_values(|s: String| s@)),
{
    let ghost m = names@.map_values(|s: String| s@);
    let mut out = String::from_str("{\"icons\": [");
    let mut i: usize = 0;
    while i < names.len()
        invariant
            0 <= i <= names.len(),
            m == names@.map_values(|s: String| s@),
            m.len() == names@.len(),
            out@ == "{\"icons\": ["@ + spec_icon_list(m.subrange(0, i as int)),
        decreases names.len() - i,
    {
        if i > 0 {
            out.append(",");
        }
        push_char(&mut out, '"');
        out.append(names[i].as_str());
        push_char(&mut out, '"');
        proof {
            let p = m.subrange(0, i + 1);
            assert(p.drop_last() =~= m.subrange(0, i as int));
            assert(p.last() == m[i as int]);
            assert(m[i as int] == names@[i as int]@);
            if i == 0 {
                assert(p.len() == 1);
                assert(spec_icon_list(p) == spec_quoted(p[0]));
                assert(out@ =~= "{\"icons\": ["@ + spec_icon_list(p));
            } else {
                assert(spec_icon_list(p) == spec_icon_list(p.drop_last()) + seq![','] + spec_quoted(
                    p.last(),
                ));
                reveal_strlit(",");
                assert(","@ =~= seq![',']);
                assert(out@ =~= "{\"icons\": ["@ + spec_icon_list(p));
            }
        }
        i = i + 1;
    }
    out.append("]}");
    proof {
        assert(m.subrange(0, names@.len() as int) =~= m);
        assert(out@ =~= spec_icons_json(m));
    }
    out
}

} // verus!
