//! The canonical text of a parsed attribute, and the law that parsing
//! it reproduces the attribute: the mini-language round trip.

use crate::attributes::parse_attr;
use crate::attributes::parse_range;
use crate::attributes::parse_title_method;
use crate::attributes::AttrModel;
use crate::attributes::AttributeErrorModel;
use crate::strutil::ci_eq;
use crate::strutil::contains_char;
use crate::strutil::find2_from;
use crate::strutil::find_from;
use crate::strutil::is_ws_char;
use crate::strutil::lemma_ci_refl;
use crate::strutil::lemma_find2_from_at;
use crate::strutil::lemma_find_from_absent;
use crate::strutil::lemma_find_from_at;
use crate::strutil::lemma_rfind_from_at;
use crate::strutil::lemma_rskip_ws_at;
use crate::strutil::lemma_skip_ws_at;
use crate::strutil::lemma_trim_id;
use crate::strutil::lemma_trimmed_ends;
use crate::strutil::rfind_from;
use crate::strutil::skip_ws;
use crate::strutil::strip_quotes;
use crate::strutil::trim_seq;
use crate::Backend;
use vstd::prelude::*;

verus! {

/// `s` surrounded by one pair of double quotes.
pub open spec fn quoted(s: Seq<char>) -> Seq<char> {
    seq!['"'] + s + seq!['"']
}

/// The canonical name of a backend.
pub open spec fn backend_name(b: Backend) -> Seq<char> {
    match b {
        Backend::Imgui => "imgui"@,
        Backend::Egui => "egui"@,
    }
}

/// An optional text, or nothing.
pub open spec fn opt_or_empty(o: Option<Seq<char>>) -> Seq<char> {
    match o {
        Some(s) => s,
        None => Seq::empty(),
    }
}

/// The canonical annotation text of a parsed attribute: what an
/// author would write to declare it. A documentation attribute has no
/// annotation syntax and no canonical text.
pub open spec fn canonical_attr(m: AttrModel) -> Seq<char> {
    match m {
        AttrModel::Skip => "skip"@,
        AttrModel::ReadOnly => "readonly"@,
        AttrModel::Rename(s) => "rename = "@ + quoted(s),
        AttrModel::Format(s) => "format = "@ + quoted(s),
        AttrModel::Tooltip(s) => "tooltip = "@ + quoted(s),
        AttrModel::Documentation(_) => Seq::empty(),
        AttrModel::Button(b) => "button("@ + quoted(b.title) + ": "@ + quoted(b.method_name)
            + seq![')'],
        AttrModel::Backend(b) => "backend = "@ + quoted(backend_name(b)),
        AttrModel::MainMenuItem(mm) => "main_menu_item("@ + quoted(mm.title) + ": "@ + quoted(
            mm.method_name,
        ) + seq![')'],
        AttrModel::Range(lo, hi) => "range = "@ + opt_or_empty(lo) + ".."@ + opt_or_empty(hi),
        AttrModel::Speed(s) => "speed = "@ + s,
    }
}

/// `c` occurs nowhere in `s`.
pub open spec fn no_char(s: Seq<char>, c: char) -> bool {
    forall|i: int| 0 <= i < s.len() ==> s[i] != c
}

/// Whether the canonical text of an attribute matches the grammar
/// exactly once, so that parsing it reproduces the attribute. Quoted
/// titles and method names must not themselves hold a quote or an
/// equals sign; range bounds and speed values must be trimmed, not
/// quote-surrounded, and a range bound must not run into the `..`
/// separator. A documentation attribute has no annotation syntax at
/// all.
pub open spec fn canonical_wf(m: AttrModel) -> bool {
    match m {
        AttrModel::Skip => true,
        AttrModel::ReadOnly => true,
        AttrModel::Rename(_) => true,
        AttrModel::Format(_) => true,
        AttrModel::Tooltip(_) => true,
        AttrModel::Documentation(_) => false,
        AttrModel::Button(b) => no_char(b.title, '"') && no_char(b.title, '=') && no_char(
            b.method_name,
            '"',
        ) && no_char(b.method_name, '='),
        AttrModel::Backend(_) => true,
        AttrModel::MainMenuItem(mm) => no_char(mm.title, '"') && no_char(mm.title, '=')
            && no_char(mm.method_name, '"') && no_char(mm.method_name, '=') && mm.hot_key is None,
        AttrModel::Range(lo, hi) => {
            let ls = opt_or_empty(lo);
            let hs = opt_or_empty(hi);
            &&& trim_seq(ls) == ls
            &&& trim_seq(hs) == hs
            &&& no_char(ls, '"')
            &&& no_char(hs, '"')
            &&& find2_from(ls, 0, '.', '.') == -1
            &&& (ls.len() > 0 ==> ls[ls.len() - 1] != '.')
            &&& (lo is Some ==> ls.len() > 0)
            &&& (hi is Some ==> hs.len() > 0)
        },
        AttrModel::Speed(s) => trim_seq(s) == s && !(s.len() >= 2 && s[0] == '"' && s[s.len() - 1]
            == '"'),
    }
}

/// The shared shape of every `key = value` canonical text: the first
/// equals sign stands inside the prefix, the key before it trims to
/// the prefix's word, and the raw value is one space followed by the
/// payload.
proof fn lemma_eq_form_parts(p: Seq<char>, rest: Seq<char>)
    requires
        p.len() >= 4,
        p[p.len() - 2] == '=',
        p[p.len() - 3] == ' ',
        p[p.len() - 1] == ' ',
        forall|j: int| 0 <= j < p.len() - 2 ==> p[j] != '=',
        forall|j: int| 0 <= j < p.len() - 3 ==> !is_ws_char(p[j]),
    ensures
        ({
            let full = p + rest;
            let e = p.len() - 2;
            &&& contains_char(full, '=')
            &&& find_from(full, 0, '=') == e
            &&& trim_seq(full.subrange(0, e as int)) == p.subrange(0, p.len() - 3)
            &&& full.subrange(e + 1, full.len() as int) == seq![' '] + rest
        }),
{
    let full = p + rest;
    let e = p.len() - 2;
    assert forall|j: int| 0 <= j < e implies full[j] != '=' by {
        assert(full[j] == p[j]);
    }
    assert(full[e as int] == '=');
    lemma_find_from_at(full, 0, '=', e as int);
    let key_raw = full.subrange(0, e as int);
    assert(key_raw =~= p.subrange(0, e as int));
    lemma_skip_ws_at(key_raw, 0, 0);
    lemma_rskip_ws_at(key_raw, e - 1, e - 2);
    assert(trim_seq(key_raw) =~= p.subrange(0, p.len() - 3));
    assert(full.subrange(e + 1, full.len() as int) =~= seq![' '] + rest);
}

/// One space followed by a quoted payload trims and unquotes to the
/// payload itself, whatever it holds.
proof fn lemma_quoted_value(s: Seq<char>)
    ensures
        strip_quotes(trim_seq(seq![' '] + quoted(s))) == s,
{
    let v = seq![' '] + quoted(s);
    assert(v[0] == ' ');
    assert(v[1] == '"');
    assert(v[v.len() - 1] == '"');
    lemma_skip_ws_at(v, 0, 1);
    lemma_rskip_ws_at(v, v.len() - 1, v.len() - 1);
    let t = trim_seq(v);
    assert(t =~= quoted(s));
    assert(t[0] == '"' && t[t.len() - 1] == '"');
    assert(strip_quotes(t) =~= s);
}

/// Strings of different lengths are not equal up to case.
proof fn lemma_ci_ne_len(a: Seq<char>, b: Seq<char>)
    requires
        a.len() != b.len(),
    ensures
        !ci_eq(a, b),
{
}

/// Strings differing at one position beyond case are not equal up to
/// case.
proof fn lemma_ci_ne_at(a: Seq<char>, b: Seq<char>, k: int)
    requires
        0 <= k < a.len(),
        a.len() == b.len(),
        !crate::strutil::char_ci_eq(a[k], b[k]),
    ensures
        !ci_eq(a, b),
{
    if ci_eq(a, b) {
        assert(crate::strutil::char_ci_eq(a[k], b[k]));
    }
}

/// Parsing the canonical `rename` annotation reproduces the
/// attribute.
proof fn lemma_canonical_rename(s: Seq<char>)
    ensures
        parse_attr("rename = "@ + quoted(s)) == Ok::<AttrModel, AttributeErrorModel>(
            AttrModel::Rename(s),
        ),
{
    let p = "rename = "@;
    reveal_strlit("rename = ");
    reveal_strlit("rename");
    assert(p =~= seq!['r', 'e', 'n', 'a', 'm', 'e', ' ', '=', ' ']);
    assert("rename"@ =~= seq!['r', 'e', 'n', 'a', 'm', 'e']);
    lemma_eq_form_parts(p, quoted(s));
    let full = p + quoted(s);
    assert(trim_seq(full.subrange(0, 7)) =~= "rename"@);
    lemma_ci_refl("rename"@);
    lemma_quoted_value(s);
}

/// Parsing the canonical `format` annotation reproduces the
/// attribute.
proof fn lemma_canonical_format(s: Seq<char>)
    ensures
        parse_attr("format = "@ + quoted(s)) == Ok::<AttrModel, AttributeErrorModel>(
            AttrModel::Format(s),
        ),
{
    let p = "format = "@;
    reveal_strlit("format = ");
    reveal_strlit("format");
    reveal_strlit("rename");
    assert(p =~= seq!['f', 'o', 'r', 'm', 'a', 't', ' ', '=', ' ']);
    assert("format"@ =~= seq!['f', 'o', 'r', 'm', 'a', 't']);
    lemma_eq_form_parts(p, quoted(s));
    let full = p + quoted(s);
    assert(trim_seq(full.subrange(0, 7)) =~= "format"@);
    lemma_ci_ne_at("format"@, "rename"@, 0);
    lemma_ci_refl("format"@);
    lemma_quoted_value(s);
}

/// Parsing the canonical `tooltip` annotation reproduces the
/// attribute.
proof fn lemma_canonical_tooltip(s: Seq<char>)
    ensures
        parse_attr("tooltip = "@ + quoted(s)) == Ok::<AttrModel, AttributeErrorModel>(
            AttrModel::Tooltip(s),
        ),
{
    let p = "tooltip = "@;
    reveal_strlit("tooltip = ");
    reveal_strlit("tooltip");
    reveal_strlit("rename");
    reveal_strlit("format");
    assert(p =~= seq!['t', 'o', 'o', 'l', 't', 'i', 'p', ' ', '=', ' ']);
    assert("tooltip"@ =~= seq!['t', 'o', 'o', 'l', 't', 'i', 'p']);
    lemma_eq_form_parts(p, quoted(s));
    let full = p + quoted(s);
    assert(trim_seq(full.subrange(0, 8)) =~= "tooltip"@);
    lemma_ci_ne_len("tooltip"@, "rename"@);
    lemma_ci_ne_len("tooltip"@, "format"@);
    lemma_ci_refl("tooltip"@);
    lemma_quoted_value(s);
}

/// Parsing the canonical `backend` annotation reproduces the
/// attribute.
proof fn lemma_canonical_backend(b: Backend)
    ensures
        parse_attr("backend = "@ + quoted(backend_name(b))) == Ok::<
            AttrModel,
            AttributeErrorModel,
        >(AttrModel::Backend(b)),
{
    let p = "backend = "@;
    reveal_strlit("backend = ");
    reveal_strlit("backend");
    reveal_strlit("rename");
    reveal_strlit("format");
    reveal_strlit("tooltip");
    reveal_strlit("imgui");
    reveal_strlit("egui");
    assert(p =~= seq!['b', 'a', 'c', 'k', 'e', 'n', 'd', ' ', '=', ' ']);
    assert("backend"@ =~= seq!['b', 'a', 'c', 'k', 'e', 'n', 'd']);
    lemma_eq_form_parts(p, quoted(backend_name(b)));
    let full = p + quoted(backend_name(b));
    assert(trim_seq(full.subrange(0, 8)) =~= "backend"@);
    lemma_ci_ne_len("backend"@, "rename"@);
    lemma_ci_ne_len("backend"@, "format"@);
    lemma_ci_ne_at("backend"@, "tooltip"@, 0);
    lemma_ci_refl("backend"@);
    lemma_quoted_value(backend_name(b));
    match b {
        Backend::Imgui => {
            lemma_ci_refl("imgui"@);
        },
        Backend::Egui => {
            lemma_ci_ne_len("egui"@, "imgui"@);
            lemma_ci_refl("egui"@);
        },
    }
}

/// Parsing the canonical `speed` annotation reproduces the attribute.
proof fn lemma_canonical_speed(s: Seq<char>)
    requires
        trim_seq(s) == s,
        !(s.len() >= 2 && s[0] == '"' && s[s.len() - 1] == '"'),
    ensures
        parse_attr("speed = "@ + s) == Ok::<AttrModel, AttributeErrorModel>(AttrModel::Speed(s)),
{
    let p = "speed = "@;
    reveal_strlit("speed = ");
    reveal_strlit("speed");
    reveal_strlit("rename");
    reveal_strlit("format");
    reveal_strlit("tooltip");
    reveal_strlit("backend");
    assert(p =~= seq!['s', 'p', 'e', 'e', 'd', ' ', '=', ' ']);
    assert("speed"@ =~= seq!['s', 'p', 'e', 'e', 'd']);
    lemma_eq_form_parts(p, s);
    let full = p + s;
    assert(trim_seq(full.subrange(0, 6)) =~= "speed"@);
    lemma_ci_ne_len("speed"@, "rename"@);
    lemma_ci_ne_len("speed"@, "format"@);
    lemma_ci_ne_len("speed"@, "tooltip"@);
    lemma_ci_ne_len("speed"@, "backend"@);
    lemma_ci_refl("speed"@);
    let v = seq![' '] + s;
    if s.len() == 0 {
        lemma_skip_ws_at(v, 0, 1);
        lemma_rskip_ws_at(v, 0, -1);
        assert(trim_seq(v) =~= s);
        assert(strip_quotes(trim_seq(v)) == s);
    } else {
        lemma_trimmed_ends(s);
        lemma_skip_ws_at(v, 0, 1);
        lemma_rskip_ws_at(v, v.len() - 1, v.len() - 1);
        assert(trim_seq(v) =~= s);
        assert(strip_quotes(trim_seq(v)) == s);
    }
}

/// Parsing the canonical `range` annotation reproduces the attribute.
proof fn lemma_canonical_range(lo: Option<Seq<char>>, hi: Option<Seq<char>>)
    requires
        canonical_wf(AttrModel::Range(lo, hi)),
    ensures
        parse_attr("range = "@ + opt_or_empty(lo) + ".."@ + opt_or_empty(hi)) == Ok::<
            AttrModel,
            AttributeErrorModel,
        >(AttrModel::Range(lo, hi)),
{
    let p = "range = "@;
    let ls = opt_or_empty(lo);
    let hs = opt_or_empty(hi);
    let rest = ls + ".."@ + hs;
    reveal_strlit("range = ");
    reveal_strlit("range");
    reveal_strlit("rename");
    reveal_strlit("format");
    reveal_strlit("tooltip");
    reveal_strlit("backend");
    reveal_strlit("speed");
    reveal_strlit("..");
    assert(p =~= seq!['r', 'a', 'n', 'g', 'e', ' ', '=', ' ']);
    assert("range"@ =~= seq!['r', 'a', 'n', 'g', 'e']);
    assert(".."@ =~= seq!['.', '.']);
    assert(("range = "@ + opt_or_empty(lo) + ".."@ + opt_or_empty(hi)) =~= p + rest);
    lemma_eq_form_parts(p, rest);
    let full = p + rest;
    assert(trim_seq(full.subrange(0, 6)) =~= "range"@);
    lemma_ci_ne_len("range"@, "rename"@);
    lemma_ci_ne_len("range"@, "format"@);
    lemma_ci_ne_len("range"@, "tooltip"@);
    lemma_ci_ne_len("range"@, "backend"@);
    lemma_ci_ne_at("range"@, "speed"@, 0);
    lemma_ci_refl("range"@);
    // The raw value trims to the payload and keeps its quotes (it has
    // none to strip).
    let v = seq![' '] + rest;
    if ls.len() > 0 {
        lemma_trimmed_ends(ls);
    }
    if hs.len() > 0 {
        lemma_trimmed_ends(hs);
    }
    assert(!is_ws_char(v[1]));
    assert(!is_ws_char(v[v.len() - 1]));
    lemma_skip_ws_at(v, 0, 1);
    lemma_rskip_ws_at(v, v.len() - 1, v.len() - 1);
    assert(trim_seq(v) =~= rest);
    assert(rest[0] != '"');
    assert(strip_quotes(trim_seq(v)) == rest);
    // The first `..` is the canonical separator.
    crate::strutil::lemma_find2_from_none(ls, 0, '.', '.');
    assert forall|j: int| 0 <= j < ls.len() implies !(#[trigger] rest[j] == '.' && rest[j + 1]
        == '.') by {
        if j + 1 < ls.len() {
            assert(rest[j] == ls[j] && rest[j + 1] == ls[j + 1]);
        } else {
            assert(rest[j] == ls[j]);
            assert(ls[ls.len() - 1] != '.');
        }
    }
    assert(rest[ls.len() as int] == '.' && rest[ls.len() as int + 1] == '.');
    lemma_find2_from_at(rest, 0, '.', '.', ls.len() as int);
    // The bounds trim back to themselves and map to the attribute's
    // own options.
    assert(rest.subrange(0, ls.len() as int) =~= ls);
    assert(rest.subrange(ls.len() as int + 2, rest.len() as int) =~= hs);
    assert(parse_range(rest) == Ok::<AttrModel, AttributeErrorModel>(AttrModel::Range(lo, hi)));
}

/// Parsing the canonical `"title" : "method"` sub-declaration yields
/// the title and the method name.
proof fn lemma_canonical_title_method(t: Seq<char>, m: Seq<char>)
    requires
        no_char(t, '"'),
        no_char(m, '"'),
    ensures
        parse_title_method(quoted(t) + ": "@ + quoted(m)) == Some((t, m)),
{
    reveal_strlit(": ");
    assert(": "@ =~= seq![':', ' ']);
    let c = quoted(t) + ": "@ + quoted(m);
    let lt = t.len() as int;
    let lm = m.len() as int;
    assert(c.len() == lt + lm + 6);
    assert(c[0] == '"');
    lemma_skip_ws_at(c, 0, 0);
    assert(c[lt + 1] == '"');
    assert forall|j: int| 1 <= j < lt + 1 implies c[j] != '"' by {
        assert(c[j] == t[j - 1]);
    }
    lemma_find_from_at(c, 1, '"', lt + 1);
    assert(c.subrange(1, lt + 1) =~= t);
    assert(c[lt + 2] == ':');
    lemma_skip_ws_at(c, lt + 2, lt + 2);
    assert(c[lt + 3] == ' ');
    assert(c[lt + 4] == '"');
    lemma_skip_ws_at(c, lt + 3, lt + 4);
    assert(c[lt + lm + 5] == '"');
    assert forall|j: int| lt + 5 <= j < lt + lm + 5 implies c[j] != '"' by {
        assert(c[j] == m[j - lt - 5]);
    }
    lemma_find_from_at(c, lt + 5, '"', lt + lm + 5);
    assert(c.subrange(lt + 5, lt + lm + 5) =~= m);
    assert(skip_ws(c, lt + lm + 6) == c.len());
}

/// Shared argument for the two structured declarations: parsing the
/// canonical text of a `key(..)` declaration takes the structured
/// branch with the prefix's word as key and the canonical content.
proof fn lemma_paren_form_parts(p: Seq<char>, t: Seq<char>, m: Seq<char>)
    requires
        p.len() >= 2,
        p[p.len() - 1] == '(',
        forall|j: int| 0 <= j < p.len() - 1 ==> p[j] != '(',
        forall|j: int| 0 <= j < p.len() ==> p[j] != '=',
        forall|j: int| 0 <= j < p.len() ==> p[j] != ')',
        forall|j: int| 0 <= j < p.len() - 1 ==> !is_ws_char(p[j]),
        no_char(t, '"'),
        no_char(t, '='),
        no_char(m, '"'),
        no_char(m, '='),
    ensures
        ({
            let full = p + quoted(t) + ": "@ + quoted(m) + seq![')'];
            &&& !contains_char(full, '=')
            &&& find_from(full, 0, '(') == p.len() - 1
            &&& trim_seq(full.subrange(0, p.len() - 1)) == p.subrange(0, p.len() - 1)
            &&& rfind_from(full, full.len() - 1, ')') == full.len() - 1
            &&& skip_ws(full, full.len() as int) == full.len()
            &&& full.len() - 1 > p.len() - 1
            &&& full.subrange(p.len() as int, full.len() - 1) == quoted(t) + ": "@ + quoted(m)
        }),
{
    reveal_strlit(": ");
    assert(": "@ =~= seq![':', ' ']);
    let full = p + quoted(t) + ": "@ + quoted(m) + seq![')'];
    let lp = p.len() as int;
    let lt = t.len() as int;
    let lm = m.len() as int;
    assert(full.len() == lp + lt + lm + 7);
    // No equals sign anywhere: the `key = value` branch is not taken.
    assert forall|j: int| 0 <= j < full.len() implies full[j] != '=' by {
        if j < lp {
            assert(full[j] == p[j]);
        } else if j == lp {
            assert(full[j] == '"');
        } else if j < lp + lt + 1 {
            assert(full[j] == t[j - lp - 1]);
        } else if j == lp + lt + 1 {
            assert(full[j] == '"');
        } else if j == lp + lt + 2 {
            assert(full[j] == ':');
        } else if j == lp + lt + 3 {
            assert(full[j] == ' ');
        } else if j == lp + lt + 4 {
            assert(full[j] == '"');
        } else if j < lp + lt + lm + 5 {
            assert(full[j] == m[j - lp - lt - 5]);
        } else if j == lp + lt + lm + 5 {
            assert(full[j] == '"');
        } else {
            assert(full[j] == ')');
        }
    }
    lemma_find_from_absent(full, 0, '=');
    // The first parenthesis closes the key.
    assert(full[lp - 1] == '(');
    assert forall|j: int| 0 <= j < lp - 1 implies full[j] != '(' by {
        assert(full[j] == p[j]);
    }
    lemma_find_from_at(full, 0, '(', lp - 1);
    let key_raw = full.subrange(0, lp - 1);
    assert(key_raw =~= p.subrange(0, lp - 1));
    lemma_trim_id(key_raw);
    // The last parenthesis is the final character.
    assert(full[full.len() - 1] == ')');
    lemma_rfind_from_at(full, full.len() - 1, ')', full.len() - 1);
    assert(full.subrange(lp, full.len() - 1) =~= quoted(t) + ": "@ + quoted(m));
}

/// Parsing the canonical `button(..)` declaration reproduces the
/// attribute.
proof fn lemma_canonical_button(t: Seq<char>, m: Seq<char>)
    requires
        no_char(t, '"'),
        no_char(t, '='),
        no_char(m, '"'),
        no_char(m, '='),
    ensures
        parse_attr("button("@ + quoted(t) + ": "@ + quoted(m) + seq![')']) == Ok::<
            AttrModel,
            AttributeErrorModel,
        >(
            AttrModel::Button(
                crate::attributes::ButtonModel { title: t, method_name: m },
            ),
        ),
{
    let p = "button("@;
    reveal_strlit("button(");
    reveal_strlit("button");
    assert(p =~= seq!['b', 'u', 't', 't', 'o', 'n', '(']);
    assert("button"@ =~= seq!['b', 'u', 't', 't', 'o', 'n']);
    lemma_paren_form_parts(p, t, m);
    let full = p + quoted(t) + ": "@ + quoted(m) + seq![')'];
    assert(trim_seq(full.subrange(0, 6)) =~= "button"@);
    lemma_ci_refl("button"@);
    lemma_canonical_title_method(t, m);
}

/// Parsing the canonical `main_menu_item(..)` declaration reproduces
/// the attribute.
proof fn lemma_canonical_main_menu_item(t: Seq<char>, m: Seq<char>)
    requires
        no_char(t, '"'),
        no_char(t, '='),
        no_char(m, '"'),
        no_char(m, '='),
    ensures
        parse_attr("main_menu_item("@ + quoted(t) + ": "@ + quoted(m) + seq![')']) == Ok::<
            AttrModel,
            AttributeErrorModel,
        >(
            AttrModel::MainMenuItem(
                crate::attributes::MainMenuItemModel {
                    title: t,
                    method_name: m,
                    hot_key: None,
                },
            ),
        ),
{
    let p = "main_menu_item("@;
    reveal_strlit("main_menu_item(");
    reveal_strlit("main_menu_item");
    reveal_strlit("button");
    assert(p =~= seq![
        'm',
        'a',
        'i',
        'n',
        '_',
        'm',
        'e',
        'n',
        'u',
        '_',
        'i',
        't',
        'e',
        'm',
        '(',
    ]);
    assert("main_menu_item"@ =~= seq![
        'm',
        'a',
        'i',
        'n',
        '_',
        'm',
        'e',
        'n',
        'u',
        '_',
        'i',
        't',
        'e',
        'm',
    ]);
    assert("button"@ =~= seq!['b', 'u', 't', 't', 'o', 'n']);
    lemma_paren_form_parts(p, t, m);
    let full = p + quoted(t) + ": "@ + quoted(m) + seq![')'];
    assert(trim_seq(full.subrange(0, 14)) =~= "main_menu_item"@);
    lemma_ci_ne_len("main_menu_item"@, "button"@);
    lemma_ci_refl("main_menu_item"@);
    lemma_canonical_title_method(t, m);
}

/// The mini-language round trip: for every attribute whose canonical
/// text matches the grammar exactly once, parsing that text
/// reproduces an equal attribute. Parsing is idempotent on canonical
/// texts.
pub proof fn lemma_parse_canonical(m: AttrModel)
    requires
        canonical_wf(m),
    ensures
        parse_attr(canonical_attr(m)) == Ok::<AttrModel, AttributeErrorModel>(m),
{
    match m {
        AttrModel::Skip => {
            lemma_canonical_skip();
        },
        AttrModel::ReadOnly => {
            lemma_canonical_readonly();
        },
        AttrModel::Rename(s) => {
            lemma_canonical_rename(s);
        },
        AttrModel::Format(s) => {
            lemma_canonical_format(s);
        },
        AttrModel::Tooltip(s) => {
            lemma_canonical_tooltip(s);
        },
        AttrModel::Documentation(_) => {
        },
        AttrModel::Button(b) => {
            lemma_canonical_button(b.title, b.method_name);
        },
        AttrModel::Backend(b) => {
            lemma_canonical_backend(b);
        },
        AttrModel::MainMenuItem(mm) => {
            lemma_canonical_main_menu_item(mm.title, mm.method_name);
        },
        AttrModel::Range(lo, hi) => {
            lemma_canonical_range(lo, hi);
        },
        AttrModel::Speed(s) => {
            lemma_canonical_speed(s);
        },
    }
}

/// Parsing the canonical bare `skip` annotation reproduces the
/// attribute.
proof fn lemma_canonical_skip()
    ensures
        parse_attr("skip"@) == Ok::<AttrModel, AttributeErrorModel>(AttrModel::Skip),
{
    reveal_strlit("skip");
    assert("skip"@ =~= seq!['s', 'k', 'i', 'p']);
    lemma_find_from_absent("skip"@, 0, '=');
    lemma_find_from_absent("skip"@, 0, '(');
    lemma_trim_id("skip"@);
    lemma_ci_refl("skip"@);
}

/// Parsing the canonical bare `readonly` annotation reproduces the
/// attribute.
proof fn lemma_canonical_readonly()
    ensures
        parse_attr("readonly"@) == Ok::<AttrModel, AttributeErrorModel>(AttrModel::ReadOnly),
{
    reveal_strlit("readonly");
    reveal_strlit("skip");
    assert("readonly"@ =~= seq!['r', 'e', 'a', 'd', 'o', 'n', 'l', 'y']);
    lemma_find_from_absent("readonly"@, 0, '=');
    lemma_find_from_absent("readonly"@, 0, '(');
    lemma_trim_id("readonly"@);
    lemma_ci_ne_len("readonly"@, "skip"@);
    lemma_ci_refl("readonly"@);
}

} // verus!
