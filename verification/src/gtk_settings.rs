//! Names of GTK settings mirrored from the xfconf `xsettings` channel.

use vstd::prelude::*;

verus! {

pub open spec fn is_upper(c: char) -> bool {
    'A' <= c && c <= 'Z'
}

pub open spec fn is_lower(c: char) -> bool {
    'a' <= c && c <= 'z'
}

pub open spec fn to_lower(c: char) -> char {
    if is_upper(c) { ((c as u32) + 32) as char } else { c }
}

fn is_upper_exec(c: char) -> (r: bool)
    ensures
        r == is_upper(c),
{
    'A' <= c && c <= 'Z'
}

fn is_lower_exec(c: char) -> (r: bool)
    ensures
        r == is_lower(c),
{
    'a' <= c && c <= 'z'
}

fn to_lower_exec(c: char) -> (r: char)
    ensures
        r == to_lower(c),
{
    if 'A' <= c && c <= 'Z' {
        ((c as u8) + 32) as char
    } else {
        c
    }
}

/// What character `i` of a TitleCase name becomes: upper-case letters are lowered, and a
/// word break (`-`) goes before one that follows a lower-case letter or precedes one, except
/// at the start.
pub open spec fn kebab_piece(s: Seq<char>, i: int) -> Seq<char> {
    let c = s[i];
    let needs_sep = i > 0 && is_upper(c) && (is_lower(s[i - 1]) || (i + 1 < s.len() && is_lower(s[i + 1])));
    if needs_sep {
        seq!['-', to_lower(c)]
    } else if is_upper(c) {
        seq![to_lower(c)]
    } else {
        seq![c]
    }
}

/// The first `n` characters of `s` in kebab-case.
pub open spec fn kebab_prefix(s: Seq<char>, n: nat) -> Seq<char>
    decreases n,
{
    if n == 0 || n > s.len() {
        Seq::empty()
    } else {
        kebab_prefix(s, (n - 1) as nat) + kebab_piece(s, n - 1)
    }
}

/// `s` in kebab-case, e.g. `CursorThemeName` becomes `cursor-theme-name`.
pub open spec fn spec_title_to_kebab(s: Seq<char>) -> Seq<char> {
    kebab_prefix(s, s.len())
}

/// Appends one character (`String::push`).
#[verifier::external_body]
pub(crate) fn push_char(s: &mut String, c: char)
    ensures
        final(s)@ == old(s)@.push(c),
{
    s.push(c)
}

/// Converts a TitleCase name to kebab-case.
pub fn title_to_kebab(s: &str) -> (r: String)
    ensures
        r@ == spec_title_to_kebab(s@),
{
    let n = s.unicode_len();
    let mut out = String::new();
    let mut i: usize = 0;
    while i < n
        invariant
            n == s@.len(),
            0 <= i <= n,
            out@ == kebab_prefix(s@, i as nat),
        decreases n - i,
    {
        let c = s.get_char(i);
        let needs_sep = i > 0 && is_upper_exec(c) && (is_lower_exec(s.get_char(i - 1)) || (i + 1 < n
            && is_lower_exec(s.get_char(i + 1))));
        if needs_sep {
            push_char(&mut out, '-');
            push_char(&mut out, to_lower_exec(c));
        } else if is_upper_exec(c) {
            push_char(&mut out, to_lower_exec(c));
        } else {
            push_char(&mut out, c);
        }
        proof {
            assert(kebab_prefix(s@, (i + 1) as nat) == kebab_prefix(s@, i as nat) + kebab_piece(s@, i as int));
        }
        i = i + 1;
    }
    out
}

/// The text without its word breaks.
pub open spec fn without_dashes(r: Seq<char>) -> Seq<char> {
    r.filter(|c: char| c != '-')
}

proof fn lemma_to_lower_not_upper(c: char)
    ensures
        !is_upper(to_lower(c)),
        c != '-' ==> to_lower(c) != '-',
{
    if is_upper(c) {
        assert(65 <= c as u32 <= 90);
        assert((((c as u32) + 32) as char) as u32 == (c as u32) + 32);
    }
}

proof fn lemma_kebab_prefix(s: Seq<char>, n: nat)
    requires
        n <= s.len(),
        !s.contains('-'),
    ensures
        forall|k: int| 0 <= k < kebab_prefix(s, n).len() ==> !is_upper(#[trigger] kebab_prefix(s, n)[k]),
        without_dashes(kebab_prefix(s, n)) == s.take(n as int).map_values(|c: char| to_lower(c)),
        n > 0 ==> kebab_prefix(s, n).len() > 0 && kebab_prefix(s, n)[0] != '-'
            && kebab_prefix(s, n).last() != '-',
        forall|k: int| 0 <= k < kebab_prefix(s, n).len() && #[trigger] kebab_prefix(s, n)[k] == '-' ==> k + 1
            < kebab_prefix(s, n).len() && kebab_prefix(s, n)[k + 1] != '-',
    decreases n,
{
    broadcast use vstd::seq_lib::group_filter_ensures;
    let r = kebab_prefix(s, n);
    if n == 0 {
        assert(r =~= Seq::<char>::empty());
        assert(without_dashes(r) =~= Seq::<char>::empty()) by {
            reveal_with_fuel(Seq::filter, 1);
        }
        assert(s.take(0).map_values(|c: char| to_lower(c)) =~= Seq::<char>::empty());
    } else {
        let m = (n - 1) as nat;
        lemma_kebab_prefix(s, m);
        let prev = kebab_prefix(s, m);
        let piece = kebab_piece(s, m as int);
        let c = s[m as int];
        assert(c != '-') by {
            if c == '-' {
                assert(s.contains('-'));
            }
        }
        lemma_to_lower_not_upper(c);
        assert(r == prev + piece);
        let lc = to_lower(c);
        assert(piece == seq!['-', lc] || piece == seq![lc]);
        assert(piece.last() == lc);
        assert(lc != '-');
        assert(m == 0 ==> piece == seq![lc]);
        assert forall|k: int| 0 <= k < r.len() implies !is_upper(#[trigger] r[k]) by {
            if k < prev.len() {
                assert(r[k] == prev[k]);
            } else {
                assert(r[k] == piece[k - prev.len()]);
            }
        }
        assert forall|k: int| 0 <= k < r.len() && #[trigger] r[k] == '-' implies k + 1 < r.len() && r[k + 1]
            != '-' by {
            if k < prev.len() {
                assert(r[k] == prev[k]);
                if k + 1 < prev.len() {
                    assert(r[k + 1] == prev[k + 1]);
                } else {
                    assert(prev[k] == prev.last());
                }
            } else {
                assert(r[k] == piece[k - prev.len()]);
                assert(k - prev.len() == 0);
                assert(r[k + 1] == piece[1]);
            }
        }
        if m == 0 {
            assert(prev.len() == 0);
            assert(r[0] == piece[0]);
        } else {
            assert(r[0] == prev[0]);
        }
        assert(r.last() == piece.last());
        let f = |c: char| c != '-';
        assert(without_dashes(r) == without_dashes(prev) + without_dashes(piece)) by {
            Seq::filter_distributes_over_add(prev, piece, f);
        }
        assert(without_dashes(piece) =~= seq![lc]) by {
            reveal_with_fuel(Seq::filter, 3);
            if piece.len() == 2 {
                assert(piece.drop_last() =~= seq!['-']);
                assert(piece.drop_last().drop_last() =~= Seq::<char>::empty());
            } else {
                assert(piece.drop_last() =~= Seq::<char>::empty());
            }
        }
        assert(s.take(n as int).map_values(|c: char| to_lower(c)) =~= s.take(m as int).map_values(
            |c: char| to_lower(c),
        ).push(lc));
    }
}

/// A TitleCase name without dashes becomes kebab-case: no upper-case letter is left, taking
/// the dashes out gives the name in lower case, and the result neither starts with a dash nor
/// holds two dashes in a row.
pub proof fn lemma_title_to_kebab(s: Seq<char>)
    requires
        !s.contains('-'),
    ensures
        forall|k: int| 0 <= k < spec_title_to_kebab(s).len() ==> !is_upper(#[trigger] spec_title_to_kebab(s)[k]),
        without_dashes(spec_title_to_kebab(s)) == s.map_values(|c: char| to_lower(c)),
        s.len() > 0 ==> spec_title_to_kebab(s)[0] != '-',
        forall|k: int| 0 <= k + 1 < spec_title_to_kebab(s).len() && #[trigger] spec_title_to_kebab(s)[k] == '-' ==> spec_title_to_kebab(s)[k + 1] != '-',
{
    lemma_kebab_prefix(s, s.len());
    assert(s.take(s.len() as int) =~= s);
}

/// `/Gtk/`, `/Net/` and `/Xft/` xfconf properties map to GTK settings with these prefixes.
pub open spec fn spec_setting_prefix(name: Seq<char>) -> Option<Seq<char>> {
    if name.len() < 5 {
        None
    } else {
        let head = name.take(5);
        if head == seq!['/', 'G', 't', 'k', '/'] || head == seq!['/', 'N', 'e', 't', '/'] {
            Some(seq!['g', 't', 'k', '-'])
        } else if head == seq!['/', 'X', 'f', 't', '/'] {
            Some(seq!['g', 't', 'k', '-', 'x', 'f', 't', '-'])
        } else {
            None
        }
    }
}

/// The one GTK setting whose name does not follow from the xfconf one.
pub open spec fn hint_style_wrong() -> Seq<char> {
    seq!['g', 't', 'k', '-', 'x', 'f', 't', '-', 'h', 'i', 'n', 't', '-', 's', 't', 'y', 'l', 'e']
}

pub open spec fn hint_style_right() -> Seq<char> {
    seq!['g', 't', 'k', '-', 'x', 'f', 't', '-', 'h', 'i', 'n', 't', 's', 't', 'y', 'l', 'e']
}

/// The GTK setting for an xfconf property: the prefix, then the rest of the property name in
/// kebab-case, e.g. `/Net/CursorBlinkTime` is `gtk-cursor-blink-time`.
pub open spec fn spec_gtk_setting_name(name: Seq<char>) -> Option<Seq<char>> {
    match spec_setting_prefix(name) {
        None => None,
        Some(prefix) => {
            let n = prefix + spec_title_to_kebab(name.skip(5));
            Some(if n == hint_style_wrong() { hint_style_right() } else { n })
        },
    }
}

fn char_at_is(s: &str, n: usize, i: usize, c: char) -> (r: bool)
    requires
        n == s@.len(),
    ensures
        r == (i < n && s@[i as int] == c),
{
    i < n && s.get_char(i) == c
}

pub fn xfconf_property_name_to_gtk_setting_name(name: &str) -> (r: Option<String>)
    ensures
        match spec_gtk_setting_name(name@) {
            None => r.is_none(),
            Some(v) => r matches Some(rs) && rs@ == v,
        },
{
    let n = name.unicode_len();
    if n < 5 {
        return None;
    }
    let slash0 = char_at_is(name, n, 0, '/') && char_at_is(name, n, 4, '/');
    let gtk = slash0 && char_at_is(name, n, 1, 'G') && char_at_is(name, n, 2, 't') && char_at_is(name, n, 3, 'k');
    let net = slash0 && char_at_is(name, n, 1, 'N') && char_at_is(name, n, 2, 'e') && char_at_is(name, n, 3, 't');
    let xft = slash0 && char_at_is(name, n, 1, 'X') && char_at_is(name, n, 2, 'f') && char_at_is(name, n, 3, 't');
    proof {
        reveal_strlit("gtk-");
        reveal_strlit("gtk-xft-");
        reveal_strlit("gtk-xft-hint-style");
        reveal_strlit("gtk-xft-hintstyle");
        let head = name@.take(5);
        assert(gtk <==> head =~= seq!['/', 'G', 't', 'k', '/']);
        assert(net <==> head =~= seq!['/', 'N', 'e', 't', '/']);
        assert(xft <==> head =~= seq!['/', 'X', 'f', 't', '/']);
        assert("gtk-"@ =~= seq!['g', 't', 'k', '-']);
        assert("gtk-xft-"@ =~= seq!['g', 't', 'k', '-', 'x', 'f', 't', '-']);
        assert("gtk-xft-hint-style"@ =~= hint_style_wrong());
        assert("gtk-xft-hintstyle"@ =~= hint_style_right());
    }
    let mut out = if gtk || net {
        String::from_str("gtk-")
    } else if xft {
        String::from_str("gtk-xft-")
    } else {
        return None;
    };
    let rest = name.substring_char(5, n);
    let kebab = title_to_kebab(rest);
    out.append(kebab.as_str());
    let wrong = String::from_str("gtk-xft-hint-style");
    if out == wrong {
        Some(String::from_str("gtk-xft-hintstyle"))
    } else {
        Some(out)
    }
}

/// A GTK setting's value as the UI process forwards it.
#[derive(Debug)]
pub enum GtkSettingsValue {
    String(String),
    Boolean(bool),
    Int32(i32),
}

/// What a settings value read from xfconf holds.
#[derive(Debug)]
pub enum SettingsValueContent {
    Text(String),
    Int32(i32),
    Boolean(bool),
    /// Any other type, by name.
    Unsupported(String),
}

/// Why a settings value is not forwarded.
#[derive(Debug, PartialEq, Eq)]
pub enum GtkSettingsValueError {
    /// Empty strings are never set.
    EmptyString,
    /// The value's type is none of string, 32-bit integer and boolean.
    UnhandledType(String),
}

impl GtkSettingsValue {
    /// Text (unless empty), integers and booleans pass; anything else is refused.
    pub fn try_from_content(value: SettingsValueContent) -> (r: Result<GtkSettingsValue, GtkSettingsValueError>)
        ensures
            match value {
                SettingsValueContent::Text(t) => if t@.len() == 0 {
                    r matches Err(GtkSettingsValueError::EmptyString)
                } else {
                    r matches Ok(GtkSettingsValue::String(v)) && v@ == t@
                },
                SettingsValueContent::Int32(i) => r matches Ok(GtkSettingsValue::Int32(v)) && v == i,
                SettingsValueContent::Boolean(b) => r matches Ok(GtkSettingsValue::Boolean(v)) && v == b,
                SettingsValueContent::Unsupported(n) => r matches Err(GtkSettingsValueError::UnhandledType(m))
                    && m@ == n@,
            },
    {
        match value {
            SettingsValueContent::Text(t) => {
                if t.as_str().unicode_len() == 0 {
                    Err(GtkSettingsValueError::EmptyString)
                } else {
                    Ok(GtkSettingsValue::String(t))
                }
            },
            SettingsValueContent::Int32(i) => Ok(GtkSettingsValue::Int32(i)),
            SettingsValueContent::Boolean(b) => Ok(GtkSettingsValue::Boolean(b)),
            SettingsValueContent::Unsupported(n) => Err(GtkSettingsValueError::UnhandledType(n)),
        }
    }
}

} // verus!
