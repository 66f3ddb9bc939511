//! Whether columns are counted in East Asian widths: the `HECTO_CJK` setting,
//! or else a Chinese, Japanese or Korean locale.
use vstd::prelude::*;
use vstd::string::*;

verus! {

/// `c` in ASCII lower case.
pub open spec fn lower_char(c: char) -> char {
    if 'A' <= c && c <= 'Z' {
        (c as int + 32) as char
    } else {
        c
    }
}

/// `s` in ASCII lower case.
pub open spec fn lowered(s: Seq<char>) -> Seq<char> {
    s.map_values(|c: char| lower_char(c))
}

/// `a` followed by `b` occurs in `s`.
pub open spec fn has_pair(s: Seq<char>, a: char, b: char) -> bool {
    exists|i: int| 0 <= i && i + 1 < s.len() && #[trigger] s[i] == a && s[i + 1] == b
}

/// A setting that turns East Asian widths on: "1", or "true" in any case.
pub open spec fn setting_on(value: Seq<char>) -> bool {
    value == "1"@ || lowered(value) == "true"@
}

/// A locale that names Chinese, Japanese or Korean: in lower case it starts
/// with "zh" or holds "ja" or "ko".
pub open spec fn cjk_locale(locale: Seq<char>) -> bool {
    let l = lowered(locale);
    (l.len() >= 2 && l[0] == 'z' && l[1] == 'h') || has_pair(l, 'j', 'a') || has_pair(l, 'k', 'o')
}

/// East Asian widths are wanted when the setting says so, or, without a
/// setting, when one of the locale variables names a CJK locale.
pub open spec fn cjk_width_wanted(setting: Option<Seq<char>>, locales: Seq<Option<Seq<char>>>) -> bool {
    match setting {
        Some(value) => setting_on(value),
        None => exists|i: int|
            0 <= i < locales.len() && (#[trigger] locales[i] matches Some(l) && cjk_locale(l)),
    }
}

/// The text of each locale variable that is set.
pub open spec fn locale_views(locales: Seq<Option<String>>) -> Seq<Option<Seq<char>>> {
    locales.map_values(
        |o: Option<String>|
            match o {
                Some(s) => Some(s@),
                None => None,
            },
    )
}

/// Whether `c` is the letter `lower` (a lower-case ASCII letter) in either case.
fn is_letter(c: char, lower: char) -> (b: bool)
    requires
        'a' <= lower <= 'z',
    ensures
        b == (lower_char(c) == lower),
{
    let upper = ((lower as u32) - 32) as u8 as char;
    assert(upper as int == lower as int - 32);
    c == lower || c == upper
}

/// Whether `value` turns East Asian widths on.
fn is_setting_on(value: &str) -> (b: bool)
    ensures
        b == setting_on(value@),
{
    proof {
        reveal_strlit("1");
        reveal_strlit("true");
    }
    let n = value.unicode_len();
    if n == 1 && value.get_char(0) == '1' {
        assert(value@ =~= "1"@);
        return true;
    }
    assert(value@ != "1"@);
    if n != 4 {
        assert(lowered(value@).len() == n);
        return false;
    }
    let b = is_letter(value.get_char(0), 't') && is_letter(value.get_char(1), 'r') && is_letter(
        value.get_char(2),
        'u',
    ) && is_letter(value.get_char(3), 'e');
    if b {
        assert(lowered(value@) =~= "true"@);
    } else {
        assert(lowered(value@) != "true"@) by {
            if lowered(value@) == "true"@ {
                assert(lowered(value@)[0] == 't');
                assert(lowered(value@)[1] == 'r');
                assert(lowered(value@)[2] == 'u');
                assert(lowered(value@)[3] == 'e');
            }
        }
    }
    b
}

/// Whether `locale` names Chinese, Japanese or Korean.
fn is_cjk_locale(locale: &str) -> (b: bool)
    ensures
        b == cjk_locale(locale@),
{
    let ghost l = lowered(locale@);
    let n = locale.unicode_len();
    if n >= 2 && is_letter(locale.get_char(0), 'z') && is_letter(locale.get_char(1), 'h') {
        return true;
    }
    let mut i: usize = 0;
    while n > 0 && i < n - 1
        invariant
            n == locale@.len(),
            l == lowered(locale@),
            forall|j: int|
                0 <= j < i ==> !((#[trigger] l[j] == 'j' && l[j + 1] == 'a') || (l[j] == 'k'
                    && l[j + 1] == 'o')),
        decreases n - i,
    {
        let c = locale.get_char(i);
        let d = locale.get_char(i + 1);
        if (is_letter(c, 'j') && is_letter(d, 'a')) || (is_letter(c, 'k') && is_letter(d, 'o')) {
            assert(l[i as int] == lower_char(c) && l[i + 1] == lower_char(d));
            return true;
        }
        i = i + 1;
    }
    assert(!has_pair(l, 'j', 'a'));
    assert(!has_pair(l, 'k', 'o'));
    false
}

/// Whether to count columns in East Asian widths, from the `HECTO_CJK`
/// setting and the `LC_ALL`, `LC_CTYPE` and `LANG` locale variables, each
/// given when it is set.
pub fn use_cjk_width(setting: Option<&str>, locales: &Vec<Option<String>>) -> (b: bool)
    ensures
        b == cjk_width_wanted(
            match setting {
                Some(v) => Some(v@),
                None => None,
            },
            locale_views(locales@),
        ),
{
    match setting {
        Some(value) => is_setting_on(value),
        None => {
            let ghost views = locale_views(locales@);
            let mut i: usize = 0;
            while i < locales.len()
                invariant
                    i <= locales@.len(),
                    views == locale_views(locales@),
                    setting is None,
                    forall|j: int|
                        0 <= j < i ==> !(#[trigger] views[j] matches Some(l) && cjk_locale(l)),
                decreases locales@.len() - i,
            {
                match &locales[i] {
                    Some(locale) => {
                        if is_cjk_locale(locale.as_str()) {
                            assert(views[i as int] == Some(locale@));
                            return true;
                        }
                    },
                    None => {},
                }
                i = i + 1;
            }
            false
        },
    }
}

} // verus!
