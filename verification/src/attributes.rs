//! The attribute model: parsing of the `imgui_presentation` annotation
//! mini-language and the set of attributes attached to one item.
//!
//! Three syntactic forms are recognized: `key = "value"`, `key(inner)`
//! and a bare `key`. Unknown keys are collected and reported all
//! together; a malformed `button(..)` or `main_menu_item(..)`
//! declaration is a hard failure.

use crate::spec_parse_backend;
use crate::strutil::ci_eq;
use crate::strutil::contains_char;
use crate::strutil::find2_from;
use crate::strutil::find_from;
use crate::strutil::rfind_from;
use crate::strutil::skip_ws;
use crate::strutil::str_eq_ci;
use crate::strutil::str_find;
use crate::strutil::str_find2;
use crate::strutil::str_rfind;
use crate::strutil::str_skip_ws;
use crate::strutil::str_strip_quotes;
use crate::strutil::str_trim;
use crate::strutil::strip_quotes;
use crate::strutil::trim_seq;
use crate::Backend;
use vstd::prelude::*;
use vstd::string::*;

verus! {

/// A button with a title and the name of the method to call on the
/// presented value when the button is pushed.
#[derive(Debug, Clone, PartialEq, Eq, Hash)]
pub struct Button {
    /// The title of the button.
    pub title: String,
    /// The method name to call once the button is clicked.
    pub method_name: String,
}

/// The mathematical model of a [`Button`].
pub struct ButtonModel {
    /// The title of the button.
    pub title: Seq<char>,
    /// The method name to call once the button is clicked.
    pub method_name: Seq<char>,
}

impl View for Button {
    type V = ButtonModel;

    open spec fn view(&self) -> ButtonModel {
        ButtonModel { title: self.title@, method_name: self.method_name@ }
    }
}

/// A main-menu item with a title and the name of the method to call on
/// the presented value when the item is clicked.
#[derive(Debug, Clone, PartialEq, Eq, Hash)]
pub struct MainMenuItem {
    /// The title of the menu item.
    pub title: String,
    /// The method name to call once the item is clicked.
    pub method_name: String,
    /// The hotkey combination which can also trigger the menu item.
    pub hot_key: Option<String>,
}

/// The mathematical model of a [`MainMenuItem`].
pub struct MainMenuItemModel {
    /// The title of the menu item.
    pub title: Seq<char>,
    /// The method name to call once the item is clicked.
    pub method_name: Seq<char>,
    /// The hotkey combination which can also trigger the menu item.
    pub hot_key: Option<Seq<char>>,
}

impl View for MainMenuItem {
    type V = MainMenuItemModel;

    open spec fn view(&self) -> MainMenuItemModel {
        MainMenuItemModel {
            title: self.title@,
            method_name: self.method_name@,
            hot_key: match self.hot_key {
                Some(k) => Some(k@),
                None => None,
            },
        }
    }
}

/// One parsed annotation.
#[derive(Debug, Clone, PartialEq, Eq, Hash)]
pub enum Attribute {
    /// Skips generating any widget for the marked field.
    Skip,
    /// Restricts the marked item to the read-only presentation.
    ReadOnly,
    /// Renames the field in the generated presentation.
    Rename(String),
    /// Sets the display format for the field (printf syntax).
    Format(String),
    /// A tooltip text that overrides the documentation.
    Tooltip(String),
    /// One line of documentation text taken from a doc comment.
    Documentation(String),
    /// A button to add below the generated widgets; only active in the
    /// mutable presentation.
    Button(Button),
    /// Selects a backend to generate for.
    Backend(Backend),
    /// A main-menu item; only rendered in the mutable presentation.
    MainMenuItem(MainMenuItem),
    /// Bounds for a numeric field, either of which may be absent; an
    /// absent bound means the type's own natural bound. The bounds are
    /// kept as the literal text written in the annotation.
    Range(Option<String>, Option<String>),
    /// The per-drag increment for a numeric field, kept as the literal
    /// text written in the annotation.
    Speed(String),
}

/// The mathematical model of an [`Attribute`].
pub enum AttrModel {
    /// Model of [`Attribute::Skip`].
    Skip,
    /// Model of [`Attribute::ReadOnly`].
    ReadOnly,
    /// Model of [`Attribute::Rename`].
    Rename(Seq<char>),
    /// Model of [`Attribute::Format`].
    Format(Seq<char>),
    /// Model of [`Attribute::Tooltip`].
    Tooltip(Seq<char>),
    /// Model of [`Attribute::Documentation`].
    Documentation(Seq<char>),
    /// Model of [`Attribute::Button`].
    Button(ButtonModel),
    /// Model of [`Attribute::Backend`].
    Backend(Backend),
    /// Model of [`Attribute::MainMenuItem`].
    MainMenuItem(MainMenuItemModel),
    /// Model of [`Attribute::Range`].
    Range(Option<Seq<char>>, Option<Seq<char>>),
    /// Model of [`Attribute::Speed`].
    Speed(Seq<char>),
}

impl View for Attribute {
    type V = AttrModel;

    open spec fn view(&self) -> AttrModel {
        match self {
            Attribute::Skip => AttrModel::Skip,
            Attribute::ReadOnly => AttrModel::ReadOnly,
            Attribute::Rename(s) => AttrModel::Rename(s@),
            Attribute::Format(s) => AttrModel::Format(s@),
            Attribute::Tooltip(s) => AttrModel::Tooltip(s@),
            Attribute::Documentation(s) => AttrModel::Documentation(s@),
            Attribute::Button(b) => AttrModel::Button(b@),
            Attribute::Backend(b) => AttrModel::Backend(*b),
            Attribute::MainMenuItem(m) => AttrModel::MainMenuItem(m@),
            Attribute::Range(lo, hi) => AttrModel::Range(
                match lo {
                    Some(l) => Some(l@),
                    None => None,
                },
                match hi {
                    Some(h) => Some(h@),
                    None => None,
                },
            ),
            Attribute::Speed(s) => AttrModel::Speed(s@),
        }
    }
}

/// One annotation that could not be parsed.
#[derive(Debug, Clone, PartialEq, Eq)]
pub enum AttributeError {
    /// The key of the annotation is not part of the mini-language; the
    /// payload is the offending key.
    Unknown(String),
    /// A `button(..)` or `main_menu_item(..)` declaration does not
    /// match the `"title" : "method"` sub-grammar; the payload is the
    /// offending declaration.
    Malformed(String),
}

/// The mathematical model of an [`AttributeError`].
pub enum AttributeErrorModel {
    /// Model of [`AttributeError::Unknown`].
    Unknown(Seq<char>),
    /// Model of [`AttributeError::Malformed`].
    Malformed(Seq<char>),
}

impl View for AttributeError {
    type V = AttributeErrorModel;

    open spec fn view(&self) -> AttributeErrorModel {
        match self {
            AttributeError::Unknown(s) => AttributeErrorModel::Unknown(s@),
            AttributeError::Malformed(s) => AttributeErrorModel::Malformed(s@),
        }
    }
}

/// The `"title" : "method"` sub-grammar of button and menu-item
/// declarations: a quoted title, a colon, and a quoted method name,
/// with optional whitespace around each part. A quote ends each
/// quoted part, so neither part can itself hold a quote.
pub open spec fn parse_title_method(c: Seq<char>) -> Option<(Seq<char>, Seq<char>)> {
    let i = skip_ws(c, 0);
    if i < c.len() && c[i] == '"' {
        let j = find_from(c, i + 1, '"');
        if j != -1 {
            let k = skip_ws(c, j + 1);
            if k < c.len() && c[k] == ':' {
                let l = skip_ws(c, k + 1);
                if l < c.len() && c[l] == '"' {
                    let m = find_from(c, l + 1, '"');
                    if m != -1 && skip_ws(c, m + 1) == c.len() {
                        Some((c.subrange(i + 1, j), c.subrange(l + 1, m)))
                    } else {
                        None
                    }
                } else {
                    None
                }
            } else {
                None
            }
        } else {
            None
        }
    } else {
        None
    }
}

/// The `min..max` payload of a `range` annotation: either bound may be
/// left out, standing for the type's own natural bound.
pub open spec fn parse_range(v: Seq<char>) -> Result<AttrModel, AttributeErrorModel> {
    let d = find2_from(v, 0, '.', '.');
    if d == -1 {
        Err(AttributeErrorModel::Malformed(v))
    } else {
        let lo = trim_seq(v.subrange(0, d));
        let hi = trim_seq(v.subrange(d + 2, v.len() as int));
        Ok(
            AttrModel::Range(
                if lo.len() == 0 {
                    None
                } else {
                    Some(lo)
                },
                if hi.len() == 0 {
                    None
                } else {
                    Some(hi)
                },
            ),
        )
    }
}

/// What parsing one raw annotation yields. A token holding `=` is a
/// `key = value` form; otherwise a token holding `(` is a structured
/// declaration; otherwise the token is a bare flag. Keys are compared
/// case-insensitively; the payload keeps its case.
pub open spec fn parse_attr(s: Seq<char>) -> Result<AttrModel, AttributeErrorModel> {
    if contains_char(s, '=') {
        let e = find_from(s, 0, '=');
        let key = trim_seq(s.subrange(0, e));
        let value = strip_quotes(trim_seq(s.subrange(e + 1, s.len() as int)));
        if ci_eq(key, "rename"@) {
            Ok(AttrModel::Rename(value))
        } else if ci_eq(key, "format"@) {
            Ok(AttrModel::Format(value))
        } else if ci_eq(key, "tooltip"@) {
            Ok(AttrModel::Tooltip(value))
        } else if ci_eq(key, "backend"@) {
            match spec_parse_backend(value) {
                Some(b) => Ok(AttrModel::Backend(b)),
                None => Err(AttributeErrorModel::Unknown(value + " is an unknown backend."@)),
            }
        } else if ci_eq(key, "speed"@) {
            Ok(AttrModel::Speed(value))
        } else if ci_eq(key, "range"@) {
            parse_range(value)
        } else {
            Err(AttributeErrorModel::Unknown(key))
        }
    } else if contains_char(s, '(') {
        let p = find_from(s, 0, '(');
        let key = trim_seq(s.subrange(0, p));
        if ci_eq(key, "button"@) || ci_eq(key, "main_menu_item"@) {
            let q = rfind_from(s, s.len() - 1, ')');
            if q > p && skip_ws(s, q + 1) == s.len() {
                match parse_title_method(s.subrange(p + 1, q)) {
                    Some((t, m)) => if ci_eq(key, "button"@) {
                        Ok(AttrModel::Button(ButtonModel { title: t, method_name: m }))
                    } else {
                        Ok(
                            AttrModel::MainMenuItem(
                                MainMenuItemModel { title: t, method_name: m, hot_key: None },
                            ),
                        )
                    },
                    None => Err(AttributeErrorModel::Malformed(trim_seq(s))),
                }
            } else {
                Err(AttributeErrorModel::Malformed(trim_seq(s)))
            }
        } else {
            Err(AttributeErrorModel::Unknown(key))
        }
    } else {
        let t = trim_seq(s);
        if ci_eq(t, "skip"@) {
            Ok(AttrModel::Skip)
        } else if ci_eq(t, "readonly"@) {
            Ok(AttrModel::ReadOnly)
        } else {
            Err(AttributeErrorModel::Unknown(t))
        }
    }
}

/// Parses the `"title" : "method"` sub-grammar.
fn title_method(c: &str) -> (r: Option<(String, String)>)
    ensures
        match r {
            Some(p) => parse_title_method(c@) == Some((p.0@, p.1@)),
            None => parse_title_method(c@) is None,
        },
{
    let n = c.unicode_len();
    let i = str_skip_ws(c, 0);
    if i < n && c.get_char(i) == '"' {
        match str_find(c, i + 1, '"') {
            Some(j) => {
                let k = str_skip_ws(c, j + 1);
                if k < n && c.get_char(k) == ':' {
                    let l = str_skip_ws(c, k + 1);
                    if l < n && c.get_char(l) == '"' {
                        match str_find(c, l + 1, '"') {
                            Some(m) => {
                                if str_skip_ws(c, m + 1) == n {
                                    let title = c.substring_char(i + 1, j).to_owned();
                                    let method = c.substring_char(l + 1, m).to_owned();
                                    Some((title, method))
                                } else {
                                    None
                                }
                            },
                            None => None,
                        }
                    } else {
                        None
                    }
                } else {
                    None
                }
            },
            None => None,
        }
    } else {
        None
    }
}

impl Attribute {
    /// Parses one raw annotation string. An unknown key or a malformed
    /// declaration is reported in the error; nothing panics.
    pub fn from_str(input: &str) -> (r: Result<Attribute, AttributeError>)
        ensures
            match r {
                Ok(a) => parse_attr(input@) == Ok::<AttrModel, AttributeErrorModel>(a@),
                Err(e) => parse_attr(input@) == Err::<AttrModel, AttributeErrorModel>(e@),
            },
    {
        let n = input.unicode_len();
        match str_find(input, 0, '=') {
            Some(e) => {
                let key = str_trim(input.substring_char(0, e));
                let value = str_strip_quotes(str_trim(input.substring_char(e + 1, n)));
                if str_eq_ci(key, "rename") {
                    Ok(Attribute::Rename(value.to_owned()))
                } else if str_eq_ci(key, "format") {
                    Ok(Attribute::Format(value.to_owned()))
                } else if str_eq_ci(key, "tooltip") {
                    Ok(Attribute::Tooltip(value.to_owned()))
                } else if str_eq_ci(key, "backend") {
                    match Backend::from_str(value) {
                        Ok(b) => Ok(Attribute::Backend(b)),
                        Err(m) => Err(AttributeError::Unknown(m)),
                    }
                } else if str_eq_ci(key, "speed") {
                    Ok(Attribute::Speed(value.to_owned()))
                } else if str_eq_ci(key, "range") {
                    match str_find2(value, 0, '.', '.') {
                        None => Err(AttributeError::Malformed(value.to_owned())),
                        Some(d) => {
                            let vn = value.unicode_len();
                            let lo = str_trim(value.substring_char(0, d));
                            let hi = str_trim(value.substring_char(d + 2, vn));
                            let lo_owned = if lo.unicode_len() == 0 {
                                None
                            } else {
                                Some(lo.to_owned())
                            };
                            let hi_owned = if hi.unicode_len() == 0 {
                                None
                            } else {
                                Some(hi.to_owned())
                            };
                            Ok(Attribute::Range(lo_owned, hi_owned))
                        },
                    }
                } else {
                    Err(AttributeError::Unknown(key.to_owned()))
                }
            },
            None => {
                match str_find(input, 0, '(') {
                    Some(p) => {
                        let key = str_trim(input.substring_char(0, p));
                        let is_button = str_eq_ci(key, "button");
                        let is_menu_item = str_eq_ci(key, "main_menu_item");
                        if is_button || is_menu_item {
                            let bad = Err(
                                AttributeError::Malformed(str_trim(input).to_owned()),
                            );
                            match str_rfind(input, ')') {
                                Some(q) => {
                                    if q > p && str_skip_ws(input, q + 1) == n {
                                        match title_method(input.substring_char(p + 1, q)) {
                                            Some(tm) => {
                                                let (title, method_name) = tm;
                                                if is_button {
                                                    Ok(
                                                        Attribute::Button(
                                                            Button { title, method_name },
                                                        ),
                                                    )
                                                } else {
                                                    Ok(
                                                        Attribute::MainMenuItem(
                                                            MainMenuItem {
                                                                title,
                                                                method_name,
                                                                hot_key: None,
                                                            },
                                                        ),
                                                    )
                                                }
                                            },
                                            None => bad,
                                        }
                                    } else {
                                        bad
                                    }
                                },
                                None => bad,
                            }
                        } else {
                            Err(AttributeError::Unknown(key.to_owned()))
                        }
                    },
                    None => {
                        let t = str_trim(input);
                        if str_eq_ci(t, "skip") {
                            Ok(Attribute::Skip)
                        } else if str_eq_ci(t, "readonly") {
                            Ok(Attribute::ReadOnly)
                        } else {
                            Err(AttributeError::Unknown(t.to_owned()))
                        }
                    },
                }
            },
        }
    }
}

/// The models of a sequence of attributes.
pub open spec fn attr_views(s: Seq<Attribute>) -> Seq<AttrModel> {
    s.map_values(|x: Attribute| x@)
}

/// The models of a sequence of attribute errors.
pub open spec fn err_views(s: Seq<AttributeError>) -> Seq<AttributeErrorModel> {
    s.map_values(|x: AttributeError| x@)
}

/// Adding one parsed attribute to a set: duplicates are dropped, but
/// documentation lines are always kept so that several doc-comment
/// lines concatenate in source order.
pub open spec fn insert_attr(s: Seq<AttrModel>, a: AttrModel) -> Seq<AttrModel> {
    if a is Documentation || !s.contains(a) {
        s.push(a)
    } else {
        s
    }
}

/// The attributes that parsing a list of raw annotation strings
/// yields, in order, entries that fail to parse left out.
pub open spec fn parsed_attrs(inputs: Seq<Seq<char>>) -> Seq<AttrModel>
    decreases inputs.len(),
{
    if inputs.len() == 0 {
        Seq::empty()
    } else {
        let prev = parsed_attrs(inputs.drop_last());
        match parse_attr(inputs.last()) {
            Ok(a) => insert_attr(prev, a),
            Err(_) => prev,
        }
    }
}

/// Every failure that parsing a list of raw annotation strings yields,
/// in order: not only the first.
pub open spec fn parse_failures(inputs: Seq<Seq<char>>) -> Seq<AttributeErrorModel>
    decreases inputs.len(),
{
    if inputs.len() == 0 {
        Seq::empty()
    } else {
        let prev = parse_failures(inputs.drop_last());
        match parse_attr(inputs.last()) {
            Ok(_) => prev,
            Err(e) => prev.push(e),
        }
    }
}

/// A parsed attribute set with documentation lines appended in order.
pub open spec fn with_docs(base: Seq<AttrModel>, docs: Seq<Seq<char>>) -> Seq<AttrModel>
    decreases docs.len(),
{
    if docs.len() == 0 {
        base
    } else {
        with_docs(base, docs.drop_last()).push(AttrModel::Documentation(docs.last()))
    }
}

/// The first rename text at or after `i`, if any.
pub open spec fn first_rename_from(s: Seq<AttrModel>, i: int) -> Option<Seq<char>>
    decreases s.len() - i,
{
    if i < 0 || i >= s.len() {
        None
    } else {
        match s[i] {
            AttrModel::Rename(t) => Some(t),
            _ => first_rename_from(s, i + 1),
        }
    }
}

/// The first format text at or after `i`, if any.
pub open spec fn first_format_from(s: Seq<AttrModel>, i: int) -> Option<Seq<char>>
    decreases s.len() - i,
{
    if i < 0 || i >= s.len() {
        None
    } else {
        match s[i] {
            AttrModel::Format(t) => Some(t),
            _ => first_format_from(s, i + 1),
        }
    }
}

/// The first tooltip text at or after `i`, if any.
pub open spec fn first_tooltip_from(s: Seq<AttrModel>, i: int) -> Option<Seq<char>>
    decreases s.len() - i,
{
    if i < 0 || i >= s.len() {
        None
    } else {
        match s[i] {
            AttrModel::Tooltip(t) => Some(t),
            _ => first_tooltip_from(s, i + 1),
        }
    }
}

/// The first speed text at or after `i`, if any.
pub open spec fn first_speed_from(s: Seq<AttrModel>, i: int) -> Option<Seq<char>>
    decreases s.len() - i,
{
    if i < 0 || i >= s.len() {
        None
    } else {
        match s[i] {
            AttrModel::Speed(t) => Some(t),
            _ => first_speed_from(s, i + 1),
        }
    }
}

/// The first range bounds at or after `i`, if any.
pub open spec fn first_range_from(s: Seq<AttrModel>, i: int) -> Option<
    (Option<Seq<char>>, Option<Seq<char>>),
>
    decreases s.len() - i,
{
    if i < 0 || i >= s.len() {
        None
    } else {
        match s[i] {
            AttrModel::Range(lo, hi) => Some((lo, hi)),
            _ => first_range_from(s, i + 1),
        }
    }
}

/// The buttons at or after `i`, in order.
pub open spec fn buttons_from(s: Seq<AttrModel>, i: int) -> Seq<ButtonModel>
    decreases s.len() - i,
{
    if i < 0 || i >= s.len() {
        Seq::empty()
    } else {
        match s[i] {
            AttrModel::Button(b) => seq![b] + buttons_from(s, i + 1),
            _ => buttons_from(s, i + 1),
        }
    }
}

/// The main-menu items at or after `i`, in order.
pub open spec fn menu_items_from(s: Seq<AttrModel>, i: int) -> Seq<MainMenuItemModel>
    decreases s.len() - i,
{
    if i < 0 || i >= s.len() {
        Seq::empty()
    } else {
        match s[i] {
            AttrModel::MainMenuItem(m) => seq![m] + menu_items_from(s, i + 1),
            _ => menu_items_from(s, i + 1),
        }
    }
}

/// The backend selections at or after `i`, in order.
pub open spec fn backends_from(s: Seq<AttrModel>, i: int) -> Seq<Backend>
    decreases s.len() - i,
{
    if i < 0 || i >= s.len() {
        Seq::empty()
    } else {
        match s[i] {
            AttrModel::Backend(b) => seq![b] + backends_from(s, i + 1),
            _ => backends_from(s, i + 1),
        }
    }
}

/// Whether a documentation attribute stands at or after `i`.
pub open spec fn has_doc_from(s: Seq<AttrModel>, i: int) -> bool
    decreases s.len() - i,
{
    if i < 0 || i >= s.len() {
        false
    } else {
        s[i] is Documentation || has_doc_from(s, i + 1)
    }
}

/// The documentation lines at or after `i`, each trimmed, concatenated
/// in source order.
pub open spec fn docs_join_from(s: Seq<AttrModel>, i: int) -> Seq<char>
    decreases s.len() - i,
{
    if i < 0 || i >= s.len() {
        Seq::empty()
    } else {
        match s[i] {
            AttrModel::Documentation(d) => trim_seq(d) + docs_join_from(s, i + 1),
            _ => docs_join_from(s, i + 1),
        }
    }
}

/// The explicit tooltip if one is present, else the joined
/// documentation if any is present.
pub open spec fn tooltip_or_docs(s: Seq<AttrModel>) -> Option<Seq<char>> {
    match first_tooltip_from(s, 0) {
        Some(t) => Some(t),
        None => if has_doc_from(s, 0) {
            Some(docs_join_from(s, 0))
        } else {
            None
        },
    }
}

/// Whether two optional strings hold the same text.
fn opt_string_eq(a: &Option<String>, b: &Option<String>) -> (r: bool)
    ensures
        r == (match (a, b) {
            (Some(x), Some(y)) => x@ == y@,
            (None, None) => true,
            _ => false,
        }),
{
    match (a, b) {
        (Some(x), Some(y)) => crate::strutil::str_eq(x.as_str(), y.as_str()),
        (None, None) => true,
        _ => false,
    }
}

/// Whether two attributes are structurally equal: same variant, same
/// payload.
pub fn attr_eq(a: &Attribute, b: &Attribute) -> (r: bool)
    ensures
        r == (a@ == b@),
{
    match (a, b) {
        (Attribute::Skip, Attribute::Skip) => true,
        (Attribute::ReadOnly, Attribute::ReadOnly) => true,
        (Attribute::Rename(x), Attribute::Rename(y)) => crate::strutil::str_eq(
            x.as_str(),
            y.as_str(),
        ),
        (Attribute::Format(x), Attribute::Format(y)) => crate::strutil::str_eq(
            x.as_str(),
            y.as_str(),
        ),
        (Attribute::Tooltip(x), Attribute::Tooltip(y)) => crate::strutil::str_eq(
            x.as_str(),
            y.as_str(),
        ),
        (Attribute::Documentation(x), Attribute::Documentation(y)) => crate::strutil::str_eq(
            x.as_str(),
            y.as_str(),
        ),
        (Attribute::Button(x), Attribute::Button(y)) => crate::strutil::str_eq(
            x.title.as_str(),
            y.title.as_str(),
        ) && crate::strutil::str_eq(x.method_name.as_str(), y.method_name.as_str()),
        (Attribute::Backend(x), Attribute::Backend(y)) => x == y,
        (Attribute::MainMenuItem(x), Attribute::MainMenuItem(y)) => crate::strutil::str_eq(
            x.title.as_str(),
            y.title.as_str(),
        ) && crate::strutil::str_eq(x.method_name.as_str(), y.method_name.as_str())
            && opt_string_eq(&x.hot_key, &y.hot_key),
        (Attribute::Range(xl, xh), Attribute::Range(yl, yh)) => opt_string_eq(xl, yl)
            && opt_string_eq(xh, yh),
        (Attribute::Speed(x), Attribute::Speed(y)) => crate::strutil::str_eq(
            x.as_str(),
            y.as_str(),
        ),
        _ => false,
    }
}

/// Whether the model of `a` stands among the models of `v`.
fn contains_attr(v: &Vec<Attribute>, a: &Attribute) -> (r: bool)
    ensures
        r == attr_views(v@).contains(a@),
{
    let n = v.len();
    let mut i: usize = 0;
    while i < n
        invariant
            i <= n,
            n == v@.len(),
            forall|j: int| 0 <= j < i ==> attr_views(v@)[j] != a@,
        decreases n - i,
    {
        if attr_eq(&v[i], a) {
            proof {
                assert(attr_views(v@)[i as int] == a@);
            }
            return true;
        }
        i = i + 1;
    }
    false
}

/// The set of attributes attached to one item: duplicates are dropped
/// on insertion, except for documentation lines, and the original
/// order is kept.
#[derive(Debug, Clone, PartialEq, Eq)]
pub struct Attributes {
    attributes: Vec<Attribute>,
}

impl View for Attributes {
    type V = Seq<AttrModel>;

    closed spec fn view(&self) -> Seq<AttrModel> {
        attr_views(self.attributes@)
    }
}

/// Every annotation of one item that could not be parsed, aggregated
/// so that one diagnostic names them all.
#[derive(Debug, Clone, PartialEq, Eq)]
pub struct AttributeErrors {
    /// The failures, in the order of the offending annotations.
    pub failures: Vec<AttributeError>,
}

impl View for AttributeErrors {
    type V = Seq<AttributeErrorModel>;

    open spec fn view(&self) -> Seq<AttributeErrorModel> {
        err_views(self.failures@)
    }
}

/// The diagnostic line for one failure.
pub open spec fn error_line(e: AttributeErrorModel) -> Seq<char> {
    match e {
        AttributeErrorModel::Unknown(k) => "#[imgui_presentation]: unknown attributes: "@ + k,
        AttributeErrorModel::Malformed(d) => "#[imgui_presentation]: malformed declaration: "@
            + d,
    }
}

/// The combined diagnostic: one line for every failure.
pub open spec fn message_model(fs: Seq<AttributeErrorModel>) -> Seq<char>
    decreases fs.len(),
{
    if fs.len() == 0 {
        Seq::empty()
    } else if fs.len() == 1 {
        error_line(fs[0])
    } else {
        message_model(fs.drop_last()) + "\n"@ + error_line(fs.last())
    }
}

impl AttributeErrors {
    /// The combined human-readable diagnostic, naming every failure.
    pub fn message(&self) -> (r: String)
        ensures
            r@ == message_model(self@),
    {
        let n = self.failures.len();
        let mut acc = String::new();
        let mut i: usize = 0;
        while i < n
            invariant
                i <= n,
                n == self.failures@.len(),
                acc@ == message_model(self@.take(i as int)),
            decreases n - i,
        {
            proof {
                assert(self@.take(i + 1).drop_last() =~= self@.take(i as int));
                assert(self@.take(i + 1).last() == self@[i as int]);
            }
            if i > 0 {
                acc.append("\n");
            }
            match &self.failures[i] {
                AttributeError::Unknown(k) => {
                    acc.append("#[imgui_presentation]: unknown attributes: ");
                    acc.append(k.as_str());
                },
                AttributeError::Malformed(d) => {
                    acc.append("#[imgui_presentation]: malformed declaration: ");
                    acc.append(d.as_str());
                },
            }
            proof {
                assert(acc@ =~= message_model(self@.take(i + 1)));
            }
            i = i + 1;
        }
        proof {
            assert(self@.take(n as int) =~= self@);
        }
        acc
    }
}

impl Attributes {
    /// Parses every raw annotation string of one item. Every failure
    /// is collected, not only the first; if any occurred, the whole
    /// set is rejected with all of them.
    pub fn new(attributes: &[String]) -> (r: Result<Attributes, AttributeErrors>)
        ensures
            ({
                let ins = attributes.deep_view();
                match r {
                    Ok(set) => parse_failures(ins).len() == 0 && set@ == parsed_attrs(ins),
                    Err(e) => e@ == parse_failures(ins) && e@.len() > 0,
                }
            }),
    {
        let n = attributes.len();
        let mut parsed: Vec<Attribute> = Vec::new();
        let mut failures: Vec<AttributeError> = Vec::new();
        let mut i: usize = 0;
        while i < n
            invariant
                i <= n,
                n == attributes@.len(),
                attr_views(parsed@) == parsed_attrs(attributes.deep_view().take(i as int)),
                err_views(failures@) == parse_failures(attributes.deep_view().take(i as int)),
            decreases n - i,
        {
            proof {
                assert(attributes.deep_view().take(i + 1).drop_last() =~= attributes.deep_view()
                    .take(i as int));
                assert(attributes.deep_view().take(i + 1).last() == attributes@[i as int]@);
            }
            match Attribute::from_str(attributes[i].as_str()) {
                Ok(a) => {
                    let is_doc = matches!(a, Attribute::Documentation(_));
                    if is_doc || !contains_attr(&parsed, &a) {
                        parsed.push(a);
                        proof {
                            assert(attr_views(parsed@) =~= parsed_attrs(
                                attributes.deep_view().take(i + 1),
                            ));
                        }
                    }
                },
                Err(e) => {
                    failures.push(e);
                    proof {
                        assert(err_views(failures@) =~= parse_failures(
                            attributes.deep_view().take(i + 1),
                        ));
                    }
                },
            }
            i = i + 1;
        }
        proof {
            assert(attributes.deep_view().take(n as int) =~= attributes.deep_view());
        }
        if failures.len() == 0 {
            Ok(Attributes { attributes: parsed })
        } else {
            Err(AttributeErrors { failures })
        }
    }

    /// Parses the annotations of one item and appends one
    /// documentation attribute for every doc-comment line, in source
    /// order.
    pub fn parse_many(annotations: &[String], docs: &[String]) -> (r: Result<
        Attributes,
        AttributeErrors,
    >)
        ensures
            ({
                let ins = annotations.deep_view();
                match r {
                    Ok(set) => parse_failures(ins).len() == 0 && set@ == with_docs(
                        parsed_attrs(ins),
                        docs.deep_view(),
                    ),
                    Err(e) => e@ == parse_failures(ins) && e@.len() > 0,
                }
            }),
    {
        match Self::new(annotations) {
            Ok(mut set) => {
                let n = docs.len();
                let mut i: usize = 0;
                while i < n
                    invariant
                        i <= n,
                        n == docs@.len(),
                        set@ == with_docs(
                            parsed_attrs(annotations.deep_view()),
                            docs.deep_view().take(i as int),
                        ),
                    decreases n - i,
                {
                    proof {
                        assert(docs.deep_view().take(i + 1).drop_last() =~= docs.deep_view().take(
                            i as int,
                        ));
                        assert(docs.deep_view().take(i + 1).last() == docs@[i as int]@);
                    }
                    set.attributes.push(Attribute::Documentation(docs[i].clone()));
                    proof {
                        assert(set@ =~= with_docs(
                            parsed_attrs(annotations.deep_view()),
                            docs.deep_view().take(i + 1),
                        ));
                    }
                    i = i + 1;
                }
                proof {
                    assert(docs.deep_view().take(n as int) =~= docs.deep_view());
                }
                Ok(set)
            },
            Err(e) => Err(e),
        }
    }

    /// Whether the item carries the `skip` flag.
    pub fn has_skip(&self) -> (r: bool)
        ensures
            r == self@.contains(AttrModel::Skip),
    {
        let n = self.attributes.len();
        let mut i: usize = 0;
        while i < n
            invariant
                i <= n,
                n == self.attributes@.len(),
                forall|j: int| 0 <= j < i ==> self@[j] != AttrModel::Skip,
            decreases n - i,
        {
            if matches!(&self.attributes[i], Attribute::Skip) {
                proof {
                    assert(self@[i as int] == AttrModel::Skip);
                }
                return true;
            }
            i = i + 1;
        }
        false
    }

    /// Whether the item carries the `readonly` flag.
    pub fn has_readonly(&self) -> (r: bool)
        ensures
            r == self@.contains(AttrModel::ReadOnly),
    {
        let n = self.attributes.len();
        let mut i: usize = 0;
        while i < n
            invariant
                i <= n,
                n == self.attributes@.len(),
                forall|j: int| 0 <= j < i ==> self@[j] != AttrModel::ReadOnly,
            decreases n - i,
        {
            if matches!(&self.attributes[i], Attribute::ReadOnly) {
                proof {
                    assert(self@[i as int] == AttrModel::ReadOnly);
                }
                return true;
            }
            i = i + 1;
        }
        false
    }

    /// The first `rename` text, if any.
    pub fn get_rename(&self) -> (r: Option<&str>)
        ensures
            match r {
                Some(t) => first_rename_from(self@, 0) == Some(t@),
                None => first_rename_from(self@, 0) is None,
            },
    {
        let n = self.attributes.len();
        let mut i: usize = 0;
        while i < n
            invariant
                i <= n,
                n == self.attributes@.len(),
                first_rename_from(self@, 0) == first_rename_from(self@, i as int),
            decreases n - i,
        {
            match &self.attributes[i] {
                Attribute::Rename(t) => {
                    return Some(t.as_str());
                },
                _ => {},
            }
            i = i + 1;
        }
        None
    }

    /// The first `format` text, if any.
    pub fn get_format(&self) -> (r: Option<&str>)
        ensures
            match r {
                Some(t) => first_format_from(self@, 0) == Some(t@),
                None => first_format_from(self@, 0) is None,
            },
    {
        let n = self.attributes.len();
        let mut i: usize = 0;
        while i < n
            invariant
                i <= n,
                n == self.attributes@.len(),
                first_format_from(self@, 0) == first_format_from(self@, i as int),
            decreases n - i,
        {
            match &self.attributes[i] {
                Attribute::Format(t) => {
                    return Some(t.as_str());
                },
                _ => {},
            }
            i = i + 1;
        }
        None
    }

    /// The first `tooltip` text, if any.
    pub fn get_tooltip(&self) -> (r: Option<&str>)
        ensures
            match r {
                Some(t) => first_tooltip_from(self@, 0) == Some(t@),
                None => first_tooltip_from(self@, 0) is None,
            },
    {
        let n = self.attributes.len();
        let mut i: usize = 0;
        while i < n
            invariant
                i <= n,
                n == self.attributes@.len(),
                first_tooltip_from(self@, 0) == first_tooltip_from(self@, i as int),
            decreases n - i,
        {
            match &self.attributes[i] {
                Attribute::Tooltip(t) => {
                    return Some(t.as_str());
                },
                _ => {},
            }
            i = i + 1;
        }
        None
    }

    /// The first `speed` text, if any.
    pub fn get_speed(&self) -> (r: Option<&str>)
        ensures
            match r {
                Some(t) => first_speed_from(self@, 0) == Some(t@),
                None => first_speed_from(self@, 0) is None,
            },
    {
        let n = self.attributes.len();
        let mut i: usize = 0;
        while i < n
            invariant
                i <= n,
                n == self.attributes@.len(),
                first_speed_from(self@, 0) == first_speed_from(self@, i as int),
            decreases n - i,
        {
            match &self.attributes[i] {
                Attribute::Speed(t) => {
                    return Some(t.as_str());
                },
                _ => {},
            }
            i = i + 1;
        }
        None
    }

    /// The first `range` bounds, if any.
    pub fn get_range(&self) -> (r: Option<(Option<String>, Option<String>)>)
        ensures
            match r {
                Some(p) => first_range_from(self@, 0) == Some(
                    (p.0.deep_view(), p.1.deep_view()),
                ),
                None => first_range_from(self@, 0) is None,
            },
    {
        let n = self.attributes.len();
        let mut i: usize = 0;
        while i < n
            invariant
                i <= n,
                n == self.attributes@.len(),
                first_range_from(self@, 0) == first_range_from(self@, i as int),
            decreases n - i,
        {
            match &self.attributes[i] {
                Attribute::Range(lo, hi) => {
                    let lo_c = match lo {
                        Some(l) => Some(l.clone()),
                        None => None,
                    };
                    let hi_c = match hi {
                        Some(h) => Some(h.clone()),
                        None => None,
                    };
                    return Some((lo_c, hi_c));
                },
                _ => {},
            }
            i = i + 1;
        }
        None
    }

    /// The joined documentation text, if any doc line is present.
    pub fn get_documentation(&self) -> (r: Option<String>)
        ensures
            match r {
                Some(d) => has_doc_from(self@, 0) && d@ == docs_join_from(self@, 0),
                None => !has_doc_from(self@, 0),
            },
    {
        let n = self.attributes.len();
        let mut acc = String::new();
        let mut found = false;
        let mut i: usize = 0;
        while i < n
            invariant
                i <= n,
                n == self.attributes@.len(),
                has_doc_from(self@, 0) == (found || has_doc_from(self@, i as int)),
                docs_join_from(self@, 0) == acc@ + docs_join_from(self@, i as int),
            decreases n - i,
        {
            match &self.attributes[i] {
                Attribute::Documentation(d) => {
                    acc.append(str_trim(d.as_str()));
                    found = true;
                    proof {
                        assert(acc@ + docs_join_from(self@, i + 1) =~= docs_join_from(self@, 0));
                    }
                },
                _ => {},
            }
            i = i + 1;
        }
        proof {
            assert(acc@ + docs_join_from(self@, n as int) =~= acc@);
        }
        if found {
            Some(acc)
        } else {
            None
        }
    }

    /// The buttons declared on the item, in order.
    pub fn get_buttons(&self) -> (r: Vec<Button>)
        ensures
            r@.map_values(|b: Button| b@) == buttons_from(self@, 0),
    {
        let n = self.attributes.len();
        let mut out: Vec<Button> = Vec::new();
        let mut i: usize = 0;
        while i < n
            invariant
                i <= n,
                n == self.attributes@.len(),
                buttons_from(self@, 0) == out@.map_values(|b: Button| b@) + buttons_from(
                    self@,
                    i as int,
                ),
            decreases n - i,
        {
            match &self.attributes[i] {
                Attribute::Button(b) => {
                    out.push(Button { title: b.title.clone(), method_name: b.method_name.clone() });
                    proof {
                        assert(buttons_from(self@, 0) =~= out@.map_values(|b: Button| b@)
                            + buttons_from(self@, i + 1));
                    }
                },
                _ => {},
            }
            i = i + 1;
        }
        proof {
            assert(out@.map_values(|b: Button| b@) + buttons_from(self@, n as int)
                =~= out@.map_values(|b: Button| b@));
        }
        out
    }

    /// The main-menu items declared on the item, in order.
    pub fn get_main_menu_items(&self) -> (r: Vec<MainMenuItem>)
        ensures
            r@.map_values(|m: MainMenuItem| m@) == menu_items_from(self@, 0),
    {
        let n = self.attributes.len();
        let mut out: Vec<MainMenuItem> = Vec::new();
        let mut i: usize = 0;
        while i < n
            invariant
                i <= n,
                n == self.attributes@.len(),
                menu_items_from(self@, 0) == out@.map_values(|m: MainMenuItem| m@)
                    + menu_items_from(self@, i as int),
            decreases n - i,
        {
            match &self.attributes[i] {
                Attribute::MainMenuItem(m) => {
                    let hot_key = match &m.hot_key {
                        Some(k) => Some(k.clone()),
                        None => None,
                    };
                    out.push(
                        MainMenuItem {
                            title: m.title.clone(),
                            method_name: m.method_name.clone(),
                            hot_key,
                        },
                    );
                    proof {
                        assert(menu_items_from(self@, 0) =~= out@.map_values(
                            |m: MainMenuItem| m@,
                        ) + menu_items_from(self@, i + 1));
                    }
                },
                _ => {},
            }
            i = i + 1;
        }
        proof {
            assert(out@.map_values(|m: MainMenuItem| m@) + menu_items_from(self@, n as int)
                =~= out@.map_values(|m: MainMenuItem| m@));
        }
        out
    }

    /// The backend selections declared on the item, in order.
    pub fn get_backends(&self) -> (r: Vec<Backend>)
        ensures
            r@ == backends_from(self@, 0),
    {
        let n = self.attributes.len();
        let mut out: Vec<Backend> = Vec::new();
        let mut i: usize = 0;
        while i < n
            invariant
                i <= n,
                n == self.attributes@.len(),
                backends_from(self@, 0) == out@ + backends_from(self@, i as int),
            decreases n - i,
        {
            match &self.attributes[i] {
                Attribute::Backend(b) => {
                    out.push(*b);
                    proof {
                        assert(backends_from(self@, 0) =~= out@ + backends_from(self@, i + 1));
                    }
                },
                _ => {},
            }
            i = i + 1;
        }
        proof {
            assert(out@ + backends_from(self@, n as int) =~= out@);
        }
        out
    }

    /// The explicit tooltip, or else the joined documentation.
    pub fn get_tooltip_or_documentation(&self) -> (r: Option<String>)
        ensures
            match r {
                Some(t) => tooltip_or_docs(self@) == Some(t@),
                None => tooltip_or_docs(self@) is None,
            },
    {
        let tooltip = match self.get_tooltip() {
            Some(t) => Some(t.to_owned()),
            None => None,
        };
        match tooltip {
            Some(t) => Some(t),
            None => self.get_documentation(),
        }
    }
}

} // verus!
